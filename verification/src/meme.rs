//! A plugin that reacts to the "!meme" chat command by broadcasting a fixed
//! picture address to the broadcast channel, rate-limited by a minimum
//! interval between two attempts.

use vstd::prelude::*;

use crate::action::Action;
use crate::action::BroadcastMsg;
use crate::event::Event;
use crate::event::event_msg;
use crate::plugin::Plugin;
use crate::plugin::RegisterAction;
use crate::plugin::broadcasts_with;
use crate::strutil::has_prefix;
use crate::strutil::str_has_prefix;
use crate::echo::spec_elapsed;

verus! {

pub struct MemePlugin {
    /// When the limiter last opened, in milliseconds on the caller's clock.
    pub last_called: u64,
    /// The minimum interval between two attempts, in milliseconds.
    pub allowed_interval: u64,
}

/// The rate limiter is open: more than the allowed interval has elapsed since
/// the limiter last opened.
pub open spec fn meme_fires(p: MemePlugin, now_ms: u64) -> bool {
    spec_elapsed(p.last_called, now_ms) > p.allowed_interval
}

/// The fixed picture address the plugin broadcasts.
pub open spec fn spec_meme_url() -> Seq<char> {
    "https://ih1.redbubble.net/image.875111905.4798/flat,750x,075,f-pad,750x1000,f8f8f8.jpg"@
}

pub fn meme_url() -> (r: &'static str)
    ensures
        r@ == spec_meme_url(),
{
    "https://ih1.redbubble.net/image.875111905.4798/flat,750x,075,f-pad,750x1000,f8f8f8.jpg"
}

/// The chat command that triggers a broadcast.
pub open spec fn spec_meme_command() -> Seq<char> {
    "!meme"@
}

impl MemePlugin {
    /// A fresh instance whose rate limiter is already open, so the first command is
    /// honoured at once; when the clock is too young for that backdating, the
    /// limiter opens one full interval after `now_ms` instead.
    pub fn new(allowed_interval: u64, now_ms: u64) -> (r: Self)
        ensures
            r.allowed_interval == allowed_interval,
            r.last_called == if now_ms >= allowed_interval {
                now_ms - allowed_interval
            } else {
                now_ms as int
            },
    {
        let last: u64 = if now_ms >= allowed_interval {
            now_ms - allowed_interval
        } else {
            now_ms
        };
        MemePlugin { last_called: last, allowed_interval }
    }
}

impl Plugin for MemePlugin {
    fn name(&self) -> (r: String)
        ensures
            r@ == "MemePlugin"@,
    {
        "MemePlugin".to_owned()
    }

    /// When the limiter is open it is consumed by any message: the moment is
    /// remembered, and only a message beginning with the command broadcasts
    /// the picture. When the limiter is closed, nothing happens at all.
    fn handle_event(&mut self, e: Event, now_ms: u64) -> (r: Option<Action>)
        ensures
            meme_fires(*old(self), now_ms) ==> final(self).last_called == now_ms
                && final(self).allowed_interval == old(self).allowed_interval,
            meme_fires(*old(self), now_ms) && has_prefix(event_msg(e), spec_meme_command())
                ==> broadcasts_with(r, "ShowMeme"@, spec_meme_url()),
            meme_fires(*old(self), now_ms) && !has_prefix(event_msg(e), spec_meme_command())
                ==> r is None,
            !meme_fires(*old(self), now_ms) ==> *final(self) == *old(self) && r is None,
    {
        let elapsed: u64 = if now_ms >= self.last_called {
            now_ms - self.last_called
        } else {
            0
        };
        match e {
            Event::ChatMessage(message) => {
                if elapsed > self.allowed_interval {
                    self.last_called = now_ms;
                    if str_has_prefix(message.msg.as_str(), "!meme") {
                        return Some(
                            Action::Broadcast(BroadcastMsg::new("ShowMeme", meme_url())),
                        );
                    }
                    return None;
                }
                None
            },
        }
    }

    fn register_action(&self) -> (r: RegisterAction)
        ensures
            r is NoAction,
    {
        RegisterAction::NoAction
    }
}

} // verus!
