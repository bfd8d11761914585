//! The broadcast-channel payload: a structured message `{"type": ..., "url":
//! ...}` sent as one text frame per action. `to_json` produces the exact
//! frame, with the standard JSON string escaping: quote and backslash are
//! escaped, control characters become their short escapes or a `\u00..`
//! sequence, and every other character is copied unchanged.

use vstd::prelude::*;

verus! {

/// A message for the broadcast channel.
pub struct NerdHubRaumMsg {
    pub kind: String,
    pub url: String,
}

/// The JSON escape of one character.
pub open spec fn escape_char(c: char) -> Seq<char> {
    if c == '"' {
        "\\\""@
    } else if c == '\\' {
        "\\\\"@
    } else if c == '\u{8}' {
        "\\b"@
    } else if c == '\t' {
        "\\t"@
    } else if c == '\n' {
        "\\n"@
    } else if c == '\u{c}' {
        "\\f"@
    } else if c == '\r' {
        "\\r"@
    } else if c == '\u{0}' {
        "\\u0000"@
    } else if c == '\u{1}' {
        "\\u0001"@
    } else if c == '\u{2}' {
        "\\u0002"@
    } else if c == '\u{3}' {
        "\\u0003"@
    } else if c == '\u{4}' {
        "\\u0004"@
    } else if c == '\u{5}' {
        "\\u0005"@
    } else if c == '\u{6}' {
        "\\u0006"@
    } else if c == '\u{7}' {
        "\\u0007"@
    } else if c == '\u{b}' {
        "\\u000b"@
    } else if c == '\u{e}' {
        "\\u000e"@
    } else if c == '\u{f}' {
        "\\u000f"@
    } else if c == '\u{10}' {
        "\\u0010"@
    } else if c == '\u{11}' {
        "\\u0011"@
    } else if c == '\u{12}' {
        "\\u0012"@
    } else if c == '\u{13}' {
        "\\u0013"@
    } else if c == '\u{14}' {
        "\\u0014"@
    } else if c == '\u{15}' {
        "\\u0015"@
    } else if c == '\u{16}' {
        "\\u0016"@
    } else if c == '\u{17}' {
        "\\u0017"@
    } else if c == '\u{18}' {
        "\\u0018"@
    } else if c == '\u{19}' {
        "\\u0019"@
    } else if c == '\u{1a}' {
        "\\u001a"@
    } else if c == '\u{1b}' {
        "\\u001b"@
    } else if c == '\u{1c}' {
        "\\u001c"@
    } else if c == '\u{1d}' {
        "\\u001d"@
    } else if c == '\u{1e}' {
        "\\u001e"@
    } else if c == '\u{1f}' {
        "\\u001f"@
    } else {
        seq![c]
    }
}

/// The JSON escape of a whole string: each character escaped in turn.
pub open spec fn json_escape(s: Seq<char>) -> Seq<char>
    decreases s.len(),
{
    if s.len() == 0 {
        Seq::empty()
    } else {
        escape_char(s[0]) + json_escape(s.skip(1))
    }
}

/// Escaping a string is escaping all but its last character, then its last.
pub proof fn lemma_json_escape_snoc(s: Seq<char>)
    requires
        s.len() > 0,
    ensures
        json_escape(s) == json_escape(s.drop_last()) + escape_char(s.last()),
    decreases s.len(),
{
    if s.len() == 1 {
        assert(s.skip(1) =~= Seq::<char>::empty());
        assert(s.drop_last() =~= Seq::<char>::empty());
        assert(json_escape(s) =~= json_escape(s.drop_last()) + escape_char(s.last()));
    } else {
        lemma_json_escape_snoc(s.skip(1));
        assert(s.skip(1).drop_last() =~= s.drop_last().skip(1));
        assert(s.skip(1).last() == s.last());
        assert(s.drop_last().len() > 0 && s.drop_last()[0] == s[0]);
        assert(json_escape(s) =~= json_escape(s.drop_last()) + escape_char(s.last()));
    }
}

/// Append the JSON escape of the character of `s` at `i`.
fn append_escaped_at(out: &mut String, s: &str, i: usize)
    requires
        i < s@.len(),
    ensures
        final(out)@ == old(out)@ + escape_char(s@[i as int]),
{
    let c: char = s.get_char(i);
    if c == '"' {
        out.append("\\\"");
    } else if c == '\\' {
        out.append("\\\\");
    } else if c == '\u{8}' {
        out.append("\\b");
    } else if c == '\t' {
        out.append("\\t");
    } else if c == '\n' {
        out.append("\\n");
    } else if c == '\u{c}' {
        out.append("\\f");
    } else if c == '\r' {
        out.append("\\r");
    } else if c == '\u{0}' {
        out.append("\\u0000");
    } else if c == '\u{1}' {
        out.append("\\u0001");
    } else if c == '\u{2}' {
        out.append("\\u0002");
    } else if c == '\u{3}' {
        out.append("\\u0003");
    } else if c == '\u{4}' {
        out.append("\\u0004");
    } else if c == '\u{5}' {
        out.append("\\u0005");
    } else if c == '\u{6}' {
        out.append("\\u0006");
    } else if c == '\u{7}' {
        out.append("\\u0007");
    } else if c == '\u{b}' {
        out.append("\\u000b");
    } else if c == '\u{e}' {
        out.append("\\u000e");
    } else if c == '\u{f}' {
        out.append("\\u000f");
    } else if c == '\u{10}' {
        out.append("\\u0010");
    } else if c == '\u{11}' {
        out.append("\\u0011");
    } else if c == '\u{12}' {
        out.append("\\u0012");
    } else if c == '\u{13}' {
        out.append("\\u0013");
    } else if c == '\u{14}' {
        out.append("\\u0014");
    } else if c == '\u{15}' {
        out.append("\\u0015");
    } else if c == '\u{16}' {
        out.append("\\u0016");
    } else if c == '\u{17}' {
        out.append("\\u0017");
    } else if c == '\u{18}' {
        out.append("\\u0018");
    } else if c == '\u{19}' {
        out.append("\\u0019");
    } else if c == '\u{1a}' {
        out.append("\\u001a");
    } else if c == '\u{1b}' {
        out.append("\\u001b");
    } else if c == '\u{1c}' {
        out.append("\\u001c");
    } else if c == '\u{1d}' {
        out.append("\\u001d");
    } else if c == '\u{1e}' {
        out.append("\\u001e");
    } else if c == '\u{1f}' {
        out.append("\\u001f");
    } else {
        let n: usize = s.unicode_len();
        let piece = s.substring_char(i, i + 1);
        proof {
            assert(piece@ =~= seq![s@[i as int]]);
        }
        out.append(piece);
    }
}

/// Append the JSON escape of all of `s`.
fn append_json_escaped(out: &mut String, s: &str)
    ensures
        final(out)@ == old(out)@ + json_escape(s@),
{
    let n: usize = s.unicode_len();
    let mut i: usize = 0;
    proof {
        assert(s@.take(0) =~= Seq::<char>::empty());
        assert(out@ =~= out@ + json_escape(s@.take(0)));
    }
    while i < n
        invariant
            i <= n,
            n == s@.len(),
            out@ == old(out)@ + json_escape(s@.take(i as int)),
        decreases n - i,
    {
        append_escaped_at(out, s, i);
        proof {
            lemma_json_escape_snoc(s@.take(i + 1));
            assert(s@.take(i + 1).drop_last() =~= s@.take(i as int));
            assert(s@.take(i + 1).last() == s@[i as int]);
            assert(out@ =~= old(out)@ + json_escape(s@.take(i + 1)));
        }
        i = i + 1;
    }
    proof {
        assert(s@.take(n as int) =~= s@);
    }
}

/// The exact text frame for a broadcast payload with the given kind and
/// address.
pub open spec fn spec_broadcast_json(kind: Seq<char>, url: Seq<char>) -> Seq<char> {
    "{\"type\":\""@ + json_escape(kind) + "\",\"url\":\""@ + json_escape(url) + "\"}"@
}

impl NerdHubRaumMsg {
    pub fn new(kind: &str, url: &str) -> (r: Self)
        ensures
            r.kind@ == kind@,
            r.url@ == url@,
    {
        NerdHubRaumMsg { kind: kind.to_owned(), url: url.to_owned() }
    }

    /// The one text frame that carries this message on the broadcast channel.
    pub fn to_json(&self) -> (r: String)
        ensures
            r@ == spec_broadcast_json(self.kind@, self.url@),
    {
        let mut out: String = "{\"type\":\"".to_owned();
        append_json_escaped(&mut out, self.kind.as_str());
        out.append("\",\"url\":\"");
        append_json_escaped(&mut out, self.url.as_str());
        out.append("\"}");
        proof {
            assert(out@ =~= spec_broadcast_json(self.kind@, self.url@));
        }
        out
    }
}

} // verus!
