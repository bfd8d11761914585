//! Character-level helpers shared by the splitter, the control-line parser
//! and the event translator: whitespace classification, first/last occurrence
//! searches and substring matching, each with an exact specification.

use vstd::prelude::*;

verus! {

/// A character of the Unicode `White_Space` class. The control-line pattern
/// treats exactly these characters as token separators.
pub open spec fn is_space_class(c: char) -> bool {
    c == ' ' || c == '\t' || c == '\n' || c == '\u{b}' || c == '\u{c}' || c == '\r'
        || c == '\u{85}' || c == '\u{a0}' || c == '\u{1680}' || c == '\u{2000}'
        || c == '\u{2001}' || c == '\u{2002}' || c == '\u{2003}' || c == '\u{2004}'
        || c == '\u{2005}' || c == '\u{2006}' || c == '\u{2007}' || c == '\u{2008}'
        || c == '\u{2009}' || c == '\u{200a}' || c == '\u{2028}' || c == '\u{2029}'
        || c == '\u{202f}' || c == '\u{205f}' || c == '\u{3000}'
}

pub fn is_space_char(c: char) -> (r: bool)
    ensures
        r == is_space_class(c),
{
    c == ' ' || c == '\t' || c == '\n' || c == '\u{b}' || c == '\u{c}' || c == '\r'
        || c == '\u{85}' || c == '\u{a0}' || c == '\u{1680}' || c == '\u{2000}'
        || c == '\u{2001}' || c == '\u{2002}' || c == '\u{2003}' || c == '\u{2004}'
        || c == '\u{2005}' || c == '\u{2006}' || c == '\u{2007}' || c == '\u{2008}'
        || c == '\u{2009}' || c == '\u{200a}' || c == '\u{2028}' || c == '\u{2029}'
        || c == '\u{202f}' || c == '\u{205f}' || c == '\u{3000}'
}

/// Index of the first character at or after `from` that lies in the
/// `White_Space` class; `s.len()` when there is none.
pub open spec fn first_ws_from(s: Seq<char>, from: int) -> int
    decreases s.len() - from when 0 <= from <= s.len()
{
    if from >= s.len() {
        s.len() as int
    } else if is_space_class(s[from]) {
        from
    } else {
        first_ws_from(s, from + 1)
    }
}

pub proof fn lemma_first_ws_from(s: Seq<char>, from: int)
    requires
        0 <= from <= s.len(),
    ensures
        from <= first_ws_from(s, from) <= s.len(),
        first_ws_from(s, from) < s.len() ==> is_space_class(s[first_ws_from(s, from)]),
        forall|i: int| from <= i < first_ws_from(s, from) ==> !is_space_class(s[i]),
    decreases s.len() - from,
{
    if from < s.len() && !is_space_class(s[from]) {
        lemma_first_ws_from(s, from + 1);
    }
}

pub fn find_ws_from(s: &str, from: usize) -> (r: usize)
    requires
        from <= s@.len(),
    ensures
        r == first_ws_from(s@, from as int),
{
    let n: usize = s.unicode_len();
    let mut j: usize = from;
    while j < n
        invariant
            from <= j <= n,
            n == s@.len(),
            first_ws_from(s@, from as int) == first_ws_from(s@, j as int),
        decreases n - j,
    {
        if is_space_char(s.get_char(j)) {
            return j;
        }
        j = j + 1;
    }
    j
}

/// Index of the first occurrence of `c` at or after `from`; `s.len()` when
/// there is none.
pub open spec fn first_char_from(s: Seq<char>, c: char, from: int) -> int
    decreases s.len() - from when 0 <= from <= s.len()
{
    if from >= s.len() {
        s.len() as int
    } else if s[from] == c {
        from
    } else {
        first_char_from(s, c, from + 1)
    }
}

pub proof fn lemma_first_char_from(s: Seq<char>, c: char, from: int)
    requires
        0 <= from <= s.len(),
    ensures
        from <= first_char_from(s, c, from) <= s.len(),
        first_char_from(s, c, from) < s.len() ==> s[first_char_from(s, c, from)] == c,
        forall|i: int| from <= i < first_char_from(s, c, from) ==> s[i] != c,
    decreases s.len() - from,
{
    if from < s.len() && s[from] != c {
        lemma_first_char_from(s, c, from + 1);
    }
}

pub fn find_char_from(s: &str, c: char, from: usize) -> (r: usize)
    requires
        from <= s@.len(),
    ensures
        r == first_char_from(s@, c, from as int),
{
    let n: usize = s.unicode_len();
    let mut j: usize = from;
    while j < n
        invariant
            from <= j <= n,
            n == s@.len(),
            first_char_from(s@, c, from as int) == first_char_from(s@, c, j as int),
        decreases n - j,
    {
        if s.get_char(j) == c {
            return j;
        }
        j = j + 1;
    }
    j
}

pub fn str_eq(a: &str, b: &str) -> (r: bool)
    ensures
        r == (a@ == b@),
{
    let na: usize = a.unicode_len();
    let nb: usize = b.unicode_len();
    if na != nb {
        return false;
    }
    let mut i: usize = 0;
    while i < na
        invariant
            i <= na,
            na == a@.len(),
            nb == b@.len(),
            na == nb,
            forall|k: int| 0 <= k < i ==> a@[k] == b@[k],
        decreases na - i,
    {
        if a.get_char(i) != b.get_char(i) {
            return false;
        }
        i = i + 1;
    }
    proof {
        assert(a@ =~= b@);
    }
    true
}

/// `p` occurs in `s` starting at index `i`.
pub open spec fn is_match_at(s: Seq<char>, pat: Seq<char>, i: int) -> bool {
    0 <= i && i + pat.len() <= s.len() && s.subrange(i, i + pat.len()) == pat
}

pub fn match_at(s: &str, pat: &str, i: usize) -> (r: bool)
    requires
        i + pat@.len() <= s@.len(),
    ensures
        r == is_match_at(s@, pat@, i as int),
{
    let n: usize = s.unicode_len();
    let m: usize = pat.unicode_len();
    let mut k: usize = 0;
    while k < m
        invariant
            k <= m,
            n == s@.len(),
            m == pat@.len(),
            i + m <= n,
            forall|j: int| 0 <= j < k ==> s@[i + j] == pat@[j],
        decreases m - k,
    {
        if s.get_char(i + k) != pat.get_char(k) {
            proof {
                assert(s@.subrange(i as int, i + pat@.len())[k as int] == s@[i + k]);
            }
            return false;
        }
        k = k + 1;
    }
    proof {
        assert(s@.subrange(i as int, i + pat@.len()) =~= pat@);
    }
    true
}

/// Index of the last occurrence of `pat` in `s` at or before `i`; `-1` when
/// there is none.
pub open spec fn last_match_from(s: Seq<char>, pat: Seq<char>, i: int) -> int
    decreases i + 1 when -1 <= i
{
    if i < 0 {
        -1
    } else if is_match_at(s, pat, i) {
        i
    } else {
        last_match_from(s, pat, i - 1)
    }
}

/// Index of the last occurrence of `pat` anywhere in `s`; `-1` when there is
/// none.
pub open spec fn last_match(s: Seq<char>, pat: Seq<char>) -> int {
    if pat.len() <= s.len() {
        last_match_from(s, pat, s.len() - pat.len())
    } else {
        -1
    }
}

pub proof fn lemma_last_match_from(s: Seq<char>, pat: Seq<char>, i: int)
    requires
        -1 <= i,
    ensures
        -1 <= last_match_from(s, pat, i) <= i,
        last_match_from(s, pat, i) >= 0 ==> is_match_at(s, pat, last_match_from(s, pat, i)),
        forall|j: int| last_match_from(s, pat, i) < j <= i ==> !is_match_at(s, pat, j),
    decreases i + 1,
{
    if i >= 0 && !is_match_at(s, pat, i) {
        lemma_last_match_from(s, pat, i - 1);
    }
}

pub fn find_last_match(s: &str, pat: &str) -> (r: Option<usize>)
    ensures
        match r {
            Some(k) => k == last_match(s@, pat@),
            None => last_match(s@, pat@) == -1,
        },
{
    let n: usize = s.unicode_len();
    let m: usize = pat.unicode_len();
    if m > n {
        return None;
    }
    let mut i: usize = n - m;
    loop
        invariant
            i <= n - m,
            n == s@.len(),
            m == pat@.len(),
            m <= n,
            last_match(s@, pat@) == last_match_from(s@, pat@, i as int),
        decreases i,
    {
        if match_at(s, pat, i) {
            return Some(i);
        }
        if i == 0 {
            proof {
                assert(last_match_from(s@, pat@, -1) == -1);
            }
            return None;
        }
        i = i - 1;
    }
}

/// Index of the last occurrence of `c` at or before `i`; `-1` when there is
/// none.
pub open spec fn last_char_from(s: Seq<char>, c: char, i: int) -> int
    decreases i + 1 when -1 <= i
{
    if i < 0 {
        -1
    } else if s[i] == c {
        i
    } else {
        last_char_from(s, c, i - 1)
    }
}

/// Index of the last occurrence of `c` anywhere in `s`; `-1` when there is
/// none.
pub open spec fn last_char(s: Seq<char>, c: char) -> int {
    last_char_from(s, c, s.len() - 1)
}

pub proof fn lemma_last_char_from(s: Seq<char>, c: char, i: int)
    requires
        -1 <= i,
    ensures
        -1 <= last_char_from(s, c, i) <= i,
        last_char_from(s, c, i) >= 0 ==> s[last_char_from(s, c, i)] == c,
        forall|j: int| last_char_from(s, c, i) < j <= i ==> s[j] != c,
    decreases i + 1,
{
    if i >= 0 && s[i] != c {
        lemma_last_char_from(s, c, i - 1);
    }
}

pub fn find_last_char(s: &str, c: char) -> (r: Option<usize>)
    ensures
        match r {
            Some(k) => k == last_char(s@, c),
            None => last_char(s@, c) == -1,
        },
{
    let n: usize = s.unicode_len();
    if n == 0 {
        return None;
    }
    let mut i: usize = n - 1;
    loop
        invariant
            i <= n - 1,
            n == s@.len(),
            n >= 1,
            last_char(s@, c) == last_char_from(s@, c, i as int),
        decreases i,
    {
        if s.get_char(i) == c {
            return Some(i);
        }
        if i == 0 {
            proof {
                assert(last_char_from(s@, c, -1) == -1);
            }
            return None;
        }
        i = i - 1;
    }
}

/// `s` begins with `p`.
pub open spec fn has_prefix(s: Seq<char>, p: Seq<char>) -> bool {
    p.len() <= s.len() && s.subrange(0, p.len() as int) == p
}

pub fn str_has_prefix(s: &str, p: &str) -> (r: bool)
    ensures
        r == has_prefix(s@, p@),
{
    let n: usize = s.unicode_len();
    let m: usize = p.unicode_len();
    if m > n {
        return false;
    }
    match_at(s, p, 0)
}

} // verus!
