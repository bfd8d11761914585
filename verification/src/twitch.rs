//! Line classifier: the per-line decision of the reader loop. A line opening
//! with ':' is a control line, parsed with the four-group pattern; a line
//! opening with '@' is a tagged chat line, translated into a chat event;
//! anything else is dropped as unrecognized. `process_frame` runs the whole
//! inbound translation for one transport frame: split, classify, and decide,
//! line by line in original order.

use vstd::prelude::*;

use crate::control::spec_parse_control;
use crate::control::spec_cap_req_frame;
use crate::control::spec_join_frame;
use crate::control::parse_control;
use crate::control::control_frames;
use crate::event::ChatMessage;
use crate::event::spec_message_of;
use crate::event::spec_user_of;
use crate::event::translate_event;
use crate::splitter::spec_lines;
use crate::splitter::views_of;
use crate::splitter::split_frame;

verus! {

/// The connection lifecycle, driven by control codes. The welcome code makes
/// the handler issue the capability request and the channel join together,
/// and no join confirmation is awaited: the state moves straight to `Joined`,
/// fire-and-forget by design.
#[derive(PartialEq, Eq, Structural, Clone, Copy, Debug)]
pub enum Lifecycle {
    Connected,
    Joined,
}

/// The lifecycle state after one control code is handled.
pub open spec fn spec_lifecycle_step(s: Lifecycle, code: Seq<char>) -> Lifecycle {
    if code == "001"@ {
        Lifecycle::Joined
    } else {
        s
    }
}

/// Advance the connection lifecycle on one control code: only the welcome
/// code moves it, and nothing ever moves it back.
pub fn lifecycle_step(s: Lifecycle, code: &str) -> (r: Lifecycle)
    ensures
        r == spec_lifecycle_step(s, code@),
        s is Joined ==> r is Joined,
{
    if crate::strutil::str_eq(code, "001") {
        Lifecycle::Joined
    } else {
        s
    }
}

/// The decision for one protocol line.
pub enum LineOutcome {
    /// A well-formed control line: the outbound control frames it owes, in
    /// order (empty for codes the handler ignores).
    Control(Vec<String>),
    /// A tagged chat line: the event to dispatch across the plugins.
    Chat(ChatMessage),
    /// A control line the four-group pattern cannot match: discarded with a
    /// diagnostic, never fatal.
    Malformed,
    /// Neither a control nor a tagged line: dropped after a warning.
    Unrecognized,
}

/// The control frames owed for a control code: exactly the capability request
/// then the channel join on the welcome code, nothing otherwise.
pub open spec fn control_frames_match(code: Seq<char>, frames: Seq<String>) -> bool {
    if code == "001"@ {
        frames.len() == 2 && frames[0]@ == spec_cap_req_frame() && frames[1]@ == spec_join_frame()
    } else {
        frames.len() == 0
    }
}

/// `o` is the decision owed for `line`.
pub open spec fn line_outcome_matches(line: Seq<char>, o: LineOutcome) -> bool {
    if line.len() > 0 && line[0] == ':' {
        match spec_parse_control(line) {
            Some(groups) => match o {
                LineOutcome::Control(frames) => control_frames_match(groups.1, frames@),
                _ => false,
            },
            None => o is Malformed,
        }
    } else if line.len() > 0 && line[0] == '@' {
        match o {
            LineOutcome::Chat(m) => m.msg@ == spec_message_of(line) && m.user_name@
                == spec_user_of(line),
            _ => false,
        }
    } else {
        o is Unrecognized
    }
}

/// Classify one protocol line and decide what it owes.
pub fn handle_line(line: &str) -> (o: LineOutcome)
    ensures
        line_outcome_matches(line@, o),
{
    let n: usize = line.unicode_len();
    if n == 0 {
        return LineOutcome::Unrecognized;
    }
    let first: char = line.get_char(0);
    if first == ':' {
        match parse_control(line) {
            Some(pc) => LineOutcome::Control(control_frames(pc.code.as_str())),
            None => LineOutcome::Malformed,
        }
    } else if first == '@' {
        LineOutcome::Chat(translate_event(line))
    } else {
        LineOutcome::Unrecognized
    }
}

/// Run the inbound translation for one transport frame: one decision per
/// protocol line, in the frame's original order.
pub fn process_frame(frame: &str) -> (r: Vec<LineOutcome>)
    ensures
        r@.len() == spec_lines(frame@).len(),
        forall|i: int|
            0 <= i < r@.len() ==> line_outcome_matches(spec_lines(frame@)[i], r@[i]),
{
    let lines: Vec<String> = split_frame(frame);
    let mut out: Vec<LineOutcome> = Vec::new();
    let mut i: usize = 0;
    let n: usize = lines.len();
    while i < n
        invariant
            i <= n,
            n == lines@.len(),
            views_of(lines@) == spec_lines(frame@),
            out@.len() == i,
            forall|k: int| 0 <= k < i ==> line_outcome_matches(spec_lines(frame@)[k], out@[k]),
        decreases n - i,
    {
        let o: LineOutcome = handle_line(lines[i].as_str());
        proof {
            assert(views_of(lines@)[i as int] == lines@[i as int]@);
        }
        out.push(o);
        i = i + 1;
    }
    out
}

} // verus!
