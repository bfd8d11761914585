//! A plugin that echoes every chat message back to the channel, rate-limited
//! by a minimum interval between two replies.

use vstd::prelude::*;

use crate::action::Action;
use crate::event::Event;
use crate::event::ChatMessage;
use crate::event::event_user;
use crate::event::event_msg;
use crate::plugin::Plugin;
use crate::plugin::RegisterAction;
use crate::plugin::responds_with;

verus! {

/// Milliseconds elapsed from `last` to `now` on one clock; zero when the
/// clock reads earlier than `last`.
pub open spec fn spec_elapsed(last: u64, now: u64) -> int {
    if now >= last {
        now - last
    } else {
        0
    }
}

pub struct EchoPlugin {
    /// When the plugin last replied, in milliseconds on the caller's clock.
    pub last_called: u64,
    /// The minimum interval between two replies, in milliseconds.
    pub allowed_interval: u64,
}

/// The rate limiter is open: more than the allowed interval has elapsed since
/// the last reply.
pub open spec fn echo_fires(p: EchoPlugin, now_ms: u64) -> bool {
    spec_elapsed(p.last_called, now_ms) > p.allowed_interval
}

/// The exact reply text for a chat message.
pub open spec fn spec_echo_reply(user: Seq<char>, msg: Seq<char>) -> Seq<char> {
    user + " wrote \""@ + msg + "\", how wise of them!"@
}

impl EchoPlugin {
    /// A fresh instance whose rate limiter is already open, so the first message is
    /// echoed at once; when the clock is too young for that backdating, the
    /// limiter opens one full interval after `now_ms` instead.
    pub fn new(allowed_interval: u64, now_ms: u64) -> (r: Self)
        ensures
            r.allowed_interval == allowed_interval,
            r.last_called == if now_ms >= allowed_interval {
                now_ms - allowed_interval
            } else {
                now_ms as int
            },
    {
        let last: u64 = if now_ms >= allowed_interval {
            now_ms - allowed_interval
        } else {
            now_ms
        };
        EchoPlugin { last_called: last, allowed_interval }
    }
}

impl Plugin for EchoPlugin {
    fn name(&self) -> (r: String)
        ensures
            r@ == "EchoPlugin"@,
    {
        "EchoPlugin".to_owned()
    }

    /// When the limiter is open, reply with the exact echo text and remember the
    /// moment; when it is closed, do nothing and stay unchanged.
    fn handle_event(&mut self, e: Event, now_ms: u64) -> (r: Option<Action>)
        ensures
            echo_fires(*old(self), now_ms) ==> final(self).last_called == now_ms
                && final(self).allowed_interval == old(self).allowed_interval
                && responds_with(r, spec_echo_reply(event_user(e), event_msg(e))),
            !echo_fires(*old(self), now_ms) ==> *final(self) == *old(self) && r is None,
    {
        let elapsed: u64 = if now_ms >= self.last_called {
            now_ms - self.last_called
        } else {
            0
        };
        match e {
            Event::ChatMessage(message) => {
                if elapsed > self.allowed_interval {
                    self.last_called = now_ms;
                    let mut text: String = message.user_name;
                    text.append(" wrote \"");
                    text.append(message.msg.as_str());
                    text.append("\", how wise of them!");
                    proof {
                        assert(text@ =~= spec_echo_reply(event_user(e), event_msg(e)));
                    }
                    return Some(Action::Respond(text));
                }
                None
            },
        }
    }

    fn register_action(&self) -> (r: RegisterAction)
        ensures
            r is NoAction,
    {
        RegisterAction::NoAction
    }
}

} // verus!
