//! Protocol line splitter: one inbound transport frame may bundle several
//! protocol lines, separated by line terminators. `split_frame` yields the
//! lines in their original order, with terminators removed and nothing else
//! changed; `lemma_split_round_trip` states that the splitter is exact.

use vstd::prelude::*;

use crate::strutil::first_char_from;
use crate::strutil::lemma_first_char_from;
use crate::strutil::find_char_from;

verus! {

/// One trailing carriage return removed: what remains of a piece between two
/// newlines when the terminator was "\r\n".
pub open spec fn strip_cr(s: Seq<char>) -> Seq<char> {
    if s.len() > 0 && s.last() == '\r' {
        s.drop_last()
    } else {
        s
    }
}

/// The protocol lines of one frame: the pieces between '\n' characters, each
/// with one trailing '\r' removed; a trailing terminator yields no final
/// empty line. These are the lines `str::lines` would yield.
pub open spec fn spec_lines(s: Seq<char>) -> Seq<Seq<char>>
    decreases s.len(),
    via spec_lines_dec
{
    if s.len() == 0 {
        Seq::empty()
    } else {
        let i = first_char_from(s, '\n', 0);
        if i == s.len() {
            seq![s]
        } else {
            seq![strip_cr(s.take(i))] + spec_lines(s.skip(i + 1))
        }
    }
}

#[via_fn]
proof fn spec_lines_dec(s: Seq<char>) {
    if s.len() > 0 {
        lemma_first_char_from(s, '\n', 0);
    }
}

/// The views of a vector of owned lines.
pub open spec fn views_of(v: Seq<String>) -> Seq<Seq<char>> {
    v.map_values(|s: String| s@)
}

/// The first occurrence of `c` at or after `from` is exactly `p`: nothing
/// before `p` is `c`, and `p` holds `c` unless it is the end.
pub proof fn lemma_first_char_is(s: Seq<char>, c: char, from: int, p: int)
    requires
        0 <= from <= p <= s.len(),
        forall|k: int| from <= k < p ==> s[k] != c,
        p < s.len() ==> s[p] == c,
    ensures
        first_char_from(s, c, from) == p,
    decreases p - from,
{
    if from < p {
        lemma_first_char_is(s, c, from + 1, p);
    }
}

pub fn split_frame(frame: &str) -> (r: Vec<String>)
    ensures
        views_of(r@) == spec_lines(frame@),
{
    let n: usize = frame.unicode_len();
    let mut out: Vec<String> = Vec::new();
    let mut start: usize = 0;
    proof {
        assert(frame@.skip(0) =~= frame@);
    }
    while start < n
        invariant
            start <= n,
            n == frame@.len(),
            views_of(out@) + spec_lines(frame@.skip(start as int)) == spec_lines(frame@),
        decreases n - start,
    {
        let ghost t = frame@.skip(start as int);
        let j: usize = find_char_from(frame, '\n', start);
        proof {
            lemma_first_char_from(frame@, '\n', start as int);
            assert(forall|k: int| 0 <= k < j - start ==> t[k] == frame@[start + k]);
            if j < n {
                assert(t[j - start] == frame@[j as int]);
            }
            lemma_first_char_is(t, '\n', 0, j - start);
            assert(t.len() > 0);
        }
        if j == n {
            let piece = frame.substring_char(start, n).to_owned();
            proof {
                assert(piece@ =~= t);
                assert(spec_lines(t) == seq![t]);
                assert(views_of(out@.push(piece)) =~= views_of(out@) + seq![t]);
                assert(frame@.skip(n as int) =~= Seq::<char>::empty());
                assert(views_of(out@.push(piece)) + spec_lines(frame@.skip(n as int))
                    =~= views_of(out@) + spec_lines(t));
            }
            out.push(piece);
            start = n;
        } else {
            let end: usize = if j > start && frame.get_char(j - 1) == '\r' {
                j - 1
            } else {
                j
            };
            let piece = frame.substring_char(start, end).to_owned();
            proof {
                let cut = t.take(j - start);
                assert(cut =~= frame@.subrange(start as int, j as int));
                if j > start && frame@[j - 1] == '\r' {
                    assert(cut.last() == '\r');
                    assert(strip_cr(cut) =~= frame@.subrange(start as int, j - 1));
                } else {
                    assert(strip_cr(cut) =~= frame@.subrange(start as int, j as int));
                }
                assert(piece@ == strip_cr(cut));
                assert(t.skip(j - start + 1) =~= frame@.skip(j + 1));
                assert(spec_lines(t) == seq![strip_cr(cut)] + spec_lines(frame@.skip(j + 1)));
                assert(views_of(out@.push(piece)) =~= views_of(out@) + seq![piece@]);
                assert(views_of(out@.push(piece)) + spec_lines(frame@.skip(j + 1))
                    =~= views_of(out@) + spec_lines(t));
            }
            out.push(piece);
            start = j + 1;
        }
    }
    proof {
        assert(frame@.skip(n as int) =~= Seq::<char>::empty());
        assert(views_of(out@) =~= views_of(out@) + spec_lines(frame@.skip(n as int)));
    }
    out
}

/// The concatenation of a sequence of lines, each terminated by "\r\n": the
/// shape of a transport frame that bundles those lines.
pub open spec fn join_crlf(lines: Seq<Seq<char>>) -> Seq<char>
    decreases lines.len(),
{
    if lines.len() == 0 {
        Seq::empty()
    } else {
        lines[0] + seq!['\r', '\n'] + join_crlf(lines.skip(1))
    }
}

/// The splitter is exact: a frame bundling any `k` terminator-delimited
/// lines, none containing a newline of its own, splits back into exactly
/// those `k` lines, in their original order. In particular the splitter
/// yields one non-empty line per non-empty line joined.
pub proof fn lemma_split_round_trip(lines: Seq<Seq<char>>)
    requires
        forall|i: int, j: int|
            0 <= i < lines.len() && 0 <= j < lines[i].len() ==> lines[i][j] != '\n',
    ensures
        spec_lines(join_crlf(lines)) == lines,
    decreases lines.len(),
{
    if lines.len() == 0 {
        assert(spec_lines(join_crlf(lines)) =~= lines);
    } else {
        let s = join_crlf(lines);
        let l0 = lines[0].len() as int;
        assert(forall|k: int| 0 <= k < l0 ==> s[k] == lines[0][k]);
        assert(s[l0] == '\r' && s[l0 + 1] == '\n');
        lemma_first_char_is(s, '\n', 0, l0 + 1);
        assert(strip_cr(s.take(l0 + 1)) =~= lines[0]);
        assert(s.skip(l0 + 2) =~= join_crlf(lines.skip(1)));
        lemma_split_round_trip(lines.skip(1));
        assert(spec_lines(s) =~= lines);
    }
}

} // verus!
