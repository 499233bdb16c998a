//! Character-level text helpers: ASCII case folding and
//! case-insensitive substring search, the base of the thermal
//! classification heuristic.

use vstd::prelude::*;

verus! {

/// ASCII case folding of a single character: uppercase letters map
/// to their lowercase counterpart, every other character is kept.
/// Folding is ASCII only, which covers the whole keyword
/// dictionary; non-ASCII letters pass through unchanged rather
/// than through Unicode case mapping.
pub open spec fn fold_char(c: char) -> char {
    if c == 'A' {
        'a'
    } else if c == 'B' {
        'b'
    } else if c == 'C' {
        'c'
    } else if c == 'D' {
        'd'
    } else if c == 'E' {
        'e'
    } else if c == 'F' {
        'f'
    } else if c == 'G' {
        'g'
    } else if c == 'H' {
        'h'
    } else if c == 'I' {
        'i'
    } else if c == 'J' {
        'j'
    } else if c == 'K' {
        'k'
    } else if c == 'L' {
        'l'
    } else if c == 'M' {
        'm'
    } else if c == 'N' {
        'n'
    } else if c == 'O' {
        'o'
    } else if c == 'P' {
        'p'
    } else if c == 'Q' {
        'q'
    } else if c == 'R' {
        'r'
    } else if c == 'S' {
        's'
    } else if c == 'T' {
        't'
    } else if c == 'U' {
        'u'
    } else if c == 'V' {
        'v'
    } else if c == 'W' {
        'w'
    } else if c == 'X' {
        'x'
    } else if c == 'Y' {
        'y'
    } else if c == 'Z' {
        'z'
    } else {
        c
    }
}

/// Folds one character, per `fold_char`.
pub fn fold_char_exec(c: char) -> (r: char)
    ensures
        r == fold_char(c),
{
    match c {
        'A' => 'a',
        'B' => 'b',
        'C' => 'c',
        'D' => 'd',
        'E' => 'e',
        'F' => 'f',
        'G' => 'g',
        'H' => 'h',
        'I' => 'i',
        'J' => 'j',
        'K' => 'k',
        'L' => 'l',
        'M' => 'm',
        'N' => 'n',
        'O' => 'o',
        'P' => 'p',
        'Q' => 'q',
        'R' => 'r',
        'S' => 's',
        'T' => 't',
        'U' => 'u',
        'V' => 'v',
        'W' => 'w',
        'X' => 'x',
        'Y' => 'y',
        'Z' => 'z',
        _ => c,
    }
}

/// ASCII case folding of a whole character sequence.
pub open spec fn fold_seq(s: Seq<char>) -> Seq<char> {
    Seq::new(s.len(), |i: int| fold_char(s[i]))
}

/// The needle occurs at position `i` of the case-folded haystack.
pub open spec fn match_at(hay: Seq<char>, needle: Seq<char>, i: int) -> bool {
    forall|j: int| 0 <= j < needle.len() ==> fold_char(hay[i + j]) == needle[j]
}

/// The needle occurs somewhere in the case-folded haystack.
pub open spec fn contains_folded(hay: Seq<char>, needle: Seq<char>) -> bool {
    exists|i: int| 0 <= i && i + needle.len() <= hay.len() && match_at(hay, needle, i)
}

/// Tests whether the needle occurs at position `i` of the haystack,
/// folding the haystack's case.
fn match_at_exec(hay: &str, needle: &str, i: usize) -> (r: bool)
    requires
        i + needle@.len() <= hay@.len(),
    ensures
        r == match_at(hay@, needle@, i as int),
{
    let hl = hay.unicode_len();
    let nl = needle.unicode_len();
    let mut j: usize = 0;
    while j < nl
        invariant
            hl == hay@.len(),
            nl == needle@.len(),
            i + nl <= hl,
            0 <= j <= nl,
            forall|j2: int| 0 <= j2 < j ==> fold_char(hay@[i + j2]) == needle@[j2],
        decreases nl - j,
    {
        if fold_char_exec(hay.get_char(i + j)) != needle.get_char(j) {
            return false;
        }
        j += 1;
    }
    true
}

/// Case-insensitive substring search: does the needle occur in the
/// haystack when the haystack's ASCII case is folded?
pub fn contains_ci(hay: &str, needle: &str) -> (r: bool)
    ensures
        r == contains_folded(hay@, needle@),
{
    let hl = hay.unicode_len();
    let nl = needle.unicode_len();
    if nl > hl {
        return false;
    }
    let mut i: usize = 0;
    while i <= hl - nl
        invariant
            hl == hay@.len(),
            nl == needle@.len(),
            nl <= hl,
            0 <= i <= hl - nl + 1,
            forall|i2: int| 0 <= i2 < i ==> !match_at(hay@, needle@, i2),
        decreases hl + 1 - i,
    {
        if match_at_exec(hay, needle, i) {
            return true;
        }
        i += 1;
    }
    false
}

/// Blank characters that separate tokens within a line.
pub open spec fn is_ws(c: char) -> bool {
    c == ' ' || c == '\t' || c == '\r'
}

/// Tests whether a character separates tokens within a line.
pub fn is_ws_exec(c: char) -> (r: bool)
    ensures
        r == is_ws(c),
{
    c == ' ' || c == '\t' || c == '\r'
}

/// The first position at or after `i` that holds a line break, or
/// the end of the sequence.
pub open spec fn next_line_end(s: Seq<char>, i: int) -> int
    decreases s.len() - i,
{
    if i >= s.len() {
        s.len() as int
    } else if s[i] == '\n' {
        i
    } else {
        next_line_end(s, i + 1)
    }
}

/// The first position at or after `i` that holds a non-blank
/// character, or the end of the sequence.
pub open spec fn next_non_ws(s: Seq<char>, i: int) -> int
    decreases s.len() - i,
{
    if i >= s.len() {
        s.len() as int
    } else if !is_ws(s[i]) {
        i
    } else {
        next_non_ws(s, i + 1)
    }
}

/// The first position at or after `i` that holds a blank character,
/// or the end of the sequence.
pub open spec fn next_ws(s: Seq<char>, i: int) -> int
    decreases s.len() - i,
{
    if i >= s.len() {
        s.len() as int
    } else if is_ws(s[i]) {
        i
    } else {
        next_ws(s, i + 1)
    }
}

/// `next_line_end` stays between its start position and the end.
pub proof fn lemma_next_line_end_bounds(s: Seq<char>, i: int)
    requires
        0 <= i <= s.len(),
    ensures
        i <= next_line_end(s, i) <= s.len(),
    decreases s.len() - i,
{
    if i < s.len() && s[i] != '\n' {
        lemma_next_line_end_bounds(s, i + 1);
    }
}

/// `next_non_ws` stays between its start position and the end.
pub proof fn lemma_next_non_ws_bounds(s: Seq<char>, i: int)
    requires
        0 <= i <= s.len(),
    ensures
        i <= next_non_ws(s, i) <= s.len(),
    decreases s.len() - i,
{
    if i < s.len() && is_ws(s[i]) {
        lemma_next_non_ws_bounds(s, i + 1);
    }
}

/// `next_ws` stays between its start position and the end.
pub proof fn lemma_next_ws_bounds(s: Seq<char>, i: int)
    requires
        0 <= i <= s.len(),
    ensures
        i <= next_ws(s, i) <= s.len(),
    decreases s.len() - i,
{
    if i < s.len() && !is_ws(s[i]) {
        lemma_next_ws_bounds(s, i + 1);
    }
}

/// Scans for the next line break at or after `i`.
pub fn find_line_end(s: &str, i: usize) -> (r: usize)
    requires
        i <= s@.len(),
    ensures
        r == next_line_end(s@, i as int),
{
    let len = s.unicode_len();
    let mut j: usize = i;
    while j < len
        invariant
            i <= j <= len,
            len == s@.len(),
            next_line_end(s@, i as int) == next_line_end(s@, j as int),
        decreases len - j,
    {
        if s.get_char(j) == '\n' {
            return j;
        }
        j += 1;
    }
    j
}

/// Scans for the next non-blank character at or after `i`.
pub fn find_non_ws(s: &str, i: usize) -> (r: usize)
    requires
        i <= s@.len(),
    ensures
        r == next_non_ws(s@, i as int),
{
    let len = s.unicode_len();
    let mut j: usize = i;
    while j < len
        invariant
            i <= j <= len,
            len == s@.len(),
            next_non_ws(s@, i as int) == next_non_ws(s@, j as int),
        decreases len - j,
    {
        if !is_ws_exec(s.get_char(j)) {
            return j;
        }
        j += 1;
    }
    j
}

/// Scans for the next blank character at or after `i`.
pub fn find_ws(s: &str, i: usize) -> (r: usize)
    requires
        i <= s@.len(),
    ensures
        r == next_ws(s@, i as int),
{
    let len = s.unicode_len();
    let mut j: usize = i;
    while j < len
        invariant
            i <= j <= len,
            len == s@.len(),
            next_ws(s@, i as int) == next_ws(s@, j as int),
        decreases len - j,
    {
        if is_ws_exec(s.get_char(j)) {
            return j;
        }
        j += 1;
    }
    j
}

/// Blank characters that `trim` strips from either end of a line.
pub open spec fn is_trim_ws(c: char) -> bool {
    c == ' ' || c == '\t' || c == '\r' || c == '\n'
}

/// Tests whether a character is stripped by trimming.
pub fn is_trim_ws_exec(c: char) -> (r: bool)
    ensures
        r == is_trim_ws(c),
{
    c == ' ' || c == '\t' || c == '\r' || c == '\n'
}

/// The first position at or after `i` that holds a character
/// trimming keeps, or the end of the sequence.
pub open spec fn trim_start_idx(s: Seq<char>, i: int) -> int
    decreases s.len() - i,
{
    if i >= s.len() {
        s.len() as int
    } else if !is_trim_ws(s[i]) {
        i
    } else {
        trim_start_idx(s, i + 1)
    }
}

/// The position after the last character before `j` that trimming
/// keeps, or zero.
pub open spec fn trim_end_idx(s: Seq<char>, j: int) -> int
    decreases j,
{
    if j <= 0 {
        0
    } else if is_trim_ws(s[j - 1]) {
        trim_end_idx(s, j - 1)
    } else {
        j
    }
}

/// The sequence with blanks stripped from both ends.
pub open spec fn trimmed(s: Seq<char>) -> Seq<char> {
    let a = trim_start_idx(s, 0);
    let b = trim_end_idx(s, s.len() as int);
    if a < b {
        s.subrange(a, b)
    } else {
        Seq::empty()
    }
}

/// `trim_start_idx` stays between its start position and the end.
pub proof fn lemma_trim_start_idx_bounds(s: Seq<char>, i: int)
    requires
        0 <= i <= s.len(),
    ensures
        i <= trim_start_idx(s, i) <= s.len(),
    decreases s.len() - i,
{
    if i < s.len() && is_trim_ws(s[i]) {
        lemma_trim_start_idx_bounds(s, i + 1);
    }
}

/// `trim_end_idx` stays between zero and its start position.
pub proof fn lemma_trim_end_idx_bounds(s: Seq<char>, j: int)
    requires
        j <= s.len(),
    ensures
        0 <= trim_end_idx(s, j) <= j || j < 0,
    decreases j,
{
    if j > 0 && is_trim_ws(s[j - 1]) {
        lemma_trim_end_idx_bounds(s, j - 1);
    }
}

/// Scans for the first untrimmed position at or after `i`.
pub fn find_trim_start(s: &str, i: usize) -> (r: usize)
    requires
        i <= s@.len(),
    ensures
        r == trim_start_idx(s@, i as int),
{
    let len = s.unicode_len();
    let mut j: usize = i;
    while j < len
        invariant
            i <= j <= len,
            len == s@.len(),
            trim_start_idx(s@, i as int) == trim_start_idx(s@, j as int),
        decreases len - j,
    {
        if !is_trim_ws_exec(s.get_char(j)) {
            return j;
        }
        j += 1;
    }
    j
}

/// Scans backward from `j` for the end of the trimmed sequence.
pub fn find_trim_end(s: &str, j: usize) -> (r: usize)
    requires
        j <= s@.len(),
    ensures
        r == trim_end_idx(s@, j as int),
{
    let mut k: usize = j;
    while k > 0
        invariant
            0 <= k <= j <= s@.len(),
            trim_end_idx(s@, j as int) == trim_end_idx(s@, k as int),
        decreases k,
    {
        if !is_trim_ws_exec(s.get_char(k - 1)) {
            return k;
        }
        k -= 1;
    }
    k
}

/// A case-insensitive search reads the haystack only through its
/// case folding: haystacks with equal foldings give equal results.
pub proof fn lemma_contains_folded_depends_on_folding(a: Seq<char>, b: Seq<char>, needle: Seq<char>)
    requires
        fold_seq(a) == fold_seq(b),
    ensures
        contains_folded(a, needle) == contains_folded(b, needle),
{
    assert(fold_seq(a).len() == a.len());
    assert(fold_seq(b).len() == b.len());
    assert(a.len() == b.len());
    assert forall|i: int| 0 <= i && i + needle.len() <= a.len() implies match_at(a, needle, i)
        == match_at(b, needle, i) by {
        assert forall|j: int| 0 <= j < needle.len() implies fold_char(#[trigger] a[i + j])
            == fold_char(b[i + j]) by {
            assert(fold_seq(a)[i + j] == fold_char(a[i + j]));
            assert(fold_seq(b)[i + j] == fold_char(b[i + j]));
        }
    }
}

} // verus!
