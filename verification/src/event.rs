//! Event translator: builds the one event type plugins receive from a tagged
//! chat line. Missing fields degrade to the empty string rather than failing;
//! malformed metadata must never halt the bot.

use vstd::prelude::*;

use crate::strutil::first_char_from;
use crate::strutil::last_char;
use crate::strutil::last_match;
use crate::strutil::is_match_at;
use crate::strutil::lemma_first_char_from;
use crate::strutil::lemma_last_char_from;
use crate::strutil::lemma_last_match_from;
use crate::strutil::find_char_from;
use crate::strutil::find_last_char;
use crate::strutil::find_last_match;

verus! {

/// The only event type plugins receive.
pub struct ChatMessage {
    pub user_name: String,
    pub msg: String,
}

/// The events the dispatch core hands to plugins.
pub enum Event {
    ChatMessage(ChatMessage),
}

/// The sender display name carried by an event.
pub open spec fn event_user(e: Event) -> Seq<char> {
    match e {
        Event::ChatMessage(m) => m.user_name@,
    }
}

/// The message text carried by an event.
pub open spec fn event_msg(e: Event) -> Seq<char> {
    match e {
        Event::ChatMessage(m) => m.msg@,
    }
}

/// The metadata key whose value names the sender of a tagged line.
pub open spec fn spec_user_marker() -> Seq<char> {
    "display-name="@
}

/// The message text of a tagged line: everything after the last ':', and the
/// empty string when the line has no ':' at all.
pub open spec fn spec_message_of(s: Seq<char>) -> Seq<char> {
    let lc = last_char(s, ':');
    if lc == -1 {
        Seq::empty()
    } else {
        s.subrange(lc + 1, s.len() as int)
    }
}

/// The sender name of a tagged line: everything after the last metadata key
/// marker, truncated at the next ';', and the empty string when the marker is
/// absent.
pub open spec fn spec_user_of(s: Seq<char>) -> Seq<char> {
    let m = last_match(s, spec_user_marker());
    if m == -1 {
        Seq::empty()
    } else {
        let start = m + spec_user_marker().len();
        let end = first_char_from(s, ';', start);
        s.subrange(start, end)
    }
}

/// Translate a tagged line into the chat event handed to every plugin. This
/// never fails: a line with no ':'-delimited trailing message yields an empty
/// message, and a line without the metadata key yields an empty sender name.
pub fn translate_event(line: &str) -> (r: ChatMessage)
    ensures
        r.msg@ == spec_message_of(line@),
        r.user_name@ == spec_user_of(line@),
{
    let n: usize = line.unicode_len();
    let msg: String = match find_last_char(line, ':') {
        Some(lc) => {
            proof {
                lemma_last_char_from(line@, ':', line@.len() - 1);
            }
            line.substring_char(lc + 1, n).to_owned()
        },
        None => String::new(),
    };
    let user_name: String = match find_last_match(line, "display-name=") {
        Some(m) => {
            proof {
                lemma_last_match_from(line@, "display-name="@, line@.len() - "display-name="@.len());
                assert(is_match_at(line@, "display-name="@, m as int));
            }
            let mlen: usize = "display-name=".unicode_len();
            let start: usize = m + mlen;
            let end: usize = find_char_from(line, ';', start);
            proof {
                lemma_first_char_from(line@, ';', start as int);
            }
            line.substring_char(start, end).to_owned()
        },
        None => String::new(),
    };
    ChatMessage { user_name, msg }
}

/// A tagged line without any ':' yields the empty message: leniency, not an
/// error.
pub proof fn lemma_no_colon_empty_message(s: Seq<char>)
    requires
        forall|i: int| 0 <= i < s.len() ==> s[i] != ':',
    ensures
        spec_message_of(s) == Seq::<char>::empty(),
{
    lemma_last_char_from(s, ':', s.len() - 1);
}

} // verus!
