//! Control lines and the command handler's decisions.
//!
//! A control line is matched against a fixed four-group pattern: three
//! whitespace-delimited tokens followed by the rest of the line. The pattern
//! mirrors the classic leftmost greedy search: a match can begin wherever the
//! next three whitespace characters are all plain spaces; the fourth group
//! runs to the end of the line or to an embedded newline. `control_frames`
//! gives the exact outbound frames owed for each control code, and the
//! remaining functions build the fixed connection-lifecycle frames.

use vstd::prelude::*;

use crate::strutil::first_ws_from;
use crate::strutil::first_char_from;
use crate::strutil::lemma_first_ws_from;
use crate::strutil::lemma_first_char_from;
use crate::strutil::find_ws_from;
use crate::strutil::find_char_from;
use crate::strutil::is_space_class;
use crate::strutil::str_eq;

verus! {

/// The four groups extracted from a control line.
pub struct ParsedControl {
    pub sender: String,
    pub code: String,
    pub channel: String,
    pub trailing: String,
}

/// A match of the four-group pattern can begin at `i`: the first three
/// whitespace characters at or after `i` are all plain spaces, so the three
/// tokens before them contain no whitespace at all.
pub open spec fn attempt_ok(s: Seq<char>, i: int) -> bool
    recommends
        0 <= i <= s.len(),
{
    let f1 = first_ws_from(s, i);
    &&& f1 < s.len() && s[f1] == ' '
    &&& {
        let f2 = first_ws_from(s, f1 + 1);
        &&& f2 < s.len() && s[f2] == ' '
        &&& {
            let f3 = first_ws_from(s, f2 + 1);
            f3 < s.len() && s[f3] == ' '
        }
    }
}

/// The leftmost position at or after `i` where a match can begin; `s.len()`
/// when there is none.
pub open spec fn match_start_from(s: Seq<char>, i: int) -> int
    decreases s.len() - i when 0 <= i <= s.len()
{
    if i >= s.len() {
        s.len() as int
    } else if attempt_ok(s, i) {
        i
    } else {
        match_start_from(s, i + 1)
    }
}

/// The four groups of the leftmost match of the pattern: the three tokens
/// before the first three spaces of the match, and the rest of the line up to
/// an embedded newline. `None` when no position allows a match.
pub open spec fn spec_parse_control(s: Seq<char>) -> Option<
    (Seq<char>, Seq<char>, Seq<char>, Seq<char>),
> {
    let i = match_start_from(s, 0);
    if i < s.len() && attempt_ok(s, i) {
        let f1 = first_ws_from(s, i);
        let f2 = first_ws_from(s, f1 + 1);
        let f3 = first_ws_from(s, f2 + 1);
        let e4 = first_char_from(s, '\n', f3 + 1);
        Some(
            (
                s.subrange(i, f1),
                s.subrange(f1 + 1, f2),
                s.subrange(f2 + 1, f3),
                s.subrange(f3 + 1, e4),
            ),
        )
    } else {
        None
    }
}

fn attempt_match(s: &str, i: usize) -> (r: bool)
    requires
        i <= s@.len(),
    ensures
        r == attempt_ok(s@, i as int),
{
    let n: usize = s.unicode_len();
    let f1: usize = find_ws_from(s, i);
    proof {
        lemma_first_ws_from(s@, i as int);
    }
    if f1 == n || s.get_char(f1) != ' ' {
        return false;
    }
    let f2: usize = find_ws_from(s, f1 + 1);
    proof {
        lemma_first_ws_from(s@, f1 + 1);
    }
    if f2 == n || s.get_char(f2) != ' ' {
        return false;
    }
    let f3: usize = find_ws_from(s, f2 + 1);
    proof {
        lemma_first_ws_from(s@, f2 + 1);
    }
    if f3 == n || s.get_char(f3) != ' ' {
        return false;
    }
    true
}

/// Parse a control line with the four-group pattern. Returns the groups of
/// the leftmost match, or `None` for a malformed line that allows none.
pub fn parse_control(line: &str) -> (r: Option<ParsedControl>)
    ensures
        r.is_some() == spec_parse_control(line@).is_some(),
        r matches Some(pc) ==> spec_parse_control(line@) == Some(
            (pc.sender@, pc.code@, pc.channel@, pc.trailing@),
        ),
{
    let n: usize = line.unicode_len();
    let mut i: usize = 0;
    loop
        invariant
            i <= n,
            n == line@.len(),
            match_start_from(line@, 0) == match_start_from(line@, i as int),
        decreases n - i,
    {
        if i == n {
            proof {
                assert(match_start_from(line@, n as int) == n);
            }
            return None;
        }
        if attempt_match(line, i) {
            proof {
                assert(match_start_from(line@, i as int) == i);
            }
            let f1: usize = find_ws_from(line, i);
            proof {
                lemma_first_ws_from(line@, i as int);
            }
            let f2: usize = find_ws_from(line, f1 + 1);
            proof {
                lemma_first_ws_from(line@, f1 + 1);
            }
            let f3: usize = find_ws_from(line, f2 + 1);
            proof {
                lemma_first_ws_from(line@, f2 + 1);
            }
            let e4: usize = find_char_from(line, '\n', f3 + 1);
            proof {
                lemma_first_char_from(line@, '\n', f3 + 1);
            }
            let pc = ParsedControl {
                sender: line.substring_char(i, f1).to_owned(),
                code: line.substring_char(f1 + 1, f2).to_owned(),
                channel: line.substring_char(f2 + 1, f3).to_owned(),
                trailing: line.substring_char(f3 + 1, e4).to_owned(),
            };
            return Some(pc);
        }
        i = i + 1;
    }
}

/// Parsing is a pure function of the line: parsing the same control line
/// twice yields identical field values, so re-deriving any group, the code
/// included, is idempotent.
pub proof fn lemma_parse_control_deterministic(a: Seq<char>, b: Seq<char>)
    requires
        a == b,
    ensures
        spec_parse_control(a) == spec_parse_control(b),
{
}

/// The channel the bot joins and replies to.
pub open spec fn spec_channel() -> Seq<char> {
    "nerdachse"@
}

pub fn channel_name() -> (r: &'static str)
    ensures
        r@ == spec_channel(),
{
    "nerdachse"
}

/// The identity the bot announces after authenticating.
pub open spec fn spec_bot_name() -> Seq<char> {
    "dachsb0t"@
}

pub fn bot_name() -> (r: &'static str)
    ensures
        r@ == spec_bot_name(),
{
    "dachsb0t"
}

/// The capability-request frame sent in response to the welcome code.
pub open spec fn spec_cap_req_frame() -> Seq<char> {
    "CAP REQ :twitch.tv/tags"@
}

/// The channel-join frame sent in response to the welcome code.
pub open spec fn spec_join_frame() -> Seq<char> {
    "JOIN #"@ + spec_channel()
}

/// The reply frame carrying `msg` to the configured channel.
pub open spec fn spec_priv_msg_frame(msg: Seq<char>) -> Seq<char> {
    "PRIVMSG #"@ + spec_channel() + " :"@ + msg
}

/// The credential frame of the authentication handshake.
pub open spec fn spec_pass_frame(token: Seq<char>) -> Seq<char> {
    "PASS oauth:"@ + token
}

/// The identity frame of the authentication handshake.
pub open spec fn spec_nick_frame() -> Seq<char> {
    "NICK "@ + spec_bot_name()
}

pub fn priv_msg_frame(msg: &str) -> (r: String)
    ensures
        r@ == spec_priv_msg_frame(msg@),
{
    let mut out: String = "PRIVMSG #".to_owned();
    out.append(channel_name());
    out.append(" :");
    out.append(msg);
    proof {
        assert(out@ =~= spec_priv_msg_frame(msg@));
    }
    out
}

/// The two frames of the authentication handshake, in the order they are
/// sent: the credential frame, then the identity frame.
pub fn auth_frames(token: &str) -> (r: Vec<String>)
    ensures
        r@.len() == 2,
        r@[0]@ == spec_pass_frame(token@),
        r@[1]@ == spec_nick_frame(),
{
    let mut pass: String = "PASS oauth:".to_owned();
    pass.append(token);
    let mut nick: String = "NICK ".to_owned();
    nick.append(bot_name());
    let mut out: Vec<String> = Vec::new();
    out.push(pass);
    out.push(nick);
    out
}

/// The outbound control frames owed for a control code: on the welcome code
/// exactly the capability request then the channel join, in that order; on
/// every other code, nothing. Unknown codes are never fatal.
pub fn control_frames(code: &str) -> (r: Vec<String>)
    ensures
        code@ == "001"@ ==> r@.len() == 2 && r@[0]@ == spec_cap_req_frame() && r@[1]@
            == spec_join_frame(),
        code@ != "001"@ ==> r@.len() == 0,
{
    if str_eq(code, "001") {
        let cap: String = "CAP REQ :twitch.tv/tags".to_owned();
        let mut join: String = "JOIN #".to_owned();
        join.append(channel_name());
        let mut out: Vec<String> = Vec::new();
        out.push(cap);
        out.push(join);
        out
    } else {
        Vec::new()
    }
}

} // verus!
