//! A plugin that never reacts to chat: it only declares one fixed reply to be
//! announced at a recurring interval.

use vstd::prelude::*;

use crate::action::Action;
use crate::event::Event;
use crate::plugin::Plugin;
use crate::plugin::RegisterAction;
use crate::plugin::RegisterInterval;
use crate::plugin::registers_respond_interval;

verus! {

pub struct AnnouncePlugin {
    /// The announcement interval in milliseconds.
    pub interval: u64,
    /// The fixed announcement text.
    pub msg: String,
}

impl AnnouncePlugin {
    pub fn new(interval: u64, msg: &str) -> (r: Self)
        ensures
            r.interval == interval,
            r.msg@ == msg@,
    {
        AnnouncePlugin { interval, msg: msg.to_owned() }
    }
}

impl Plugin for AnnouncePlugin {
    fn name(&self) -> (r: String)
        ensures
            r@ == "AnnouncePlugin for: "@ + self.msg@,
    {
        let mut out: String = "AnnouncePlugin for: ".to_owned();
        out.append(self.msg.as_str());
        out
    }

    /// Chat events never produce an action and never change the plugin.
    fn handle_event(&mut self, e: Event, now_ms: u64) -> (r: Option<Action>)
        ensures
            r is None,
            *final(self) == *old(self),
    {
        None
    }

    fn register_action(&self) -> (r: RegisterAction)
        ensures
            registers_respond_interval(r, self.interval, self.msg@),
    {
        RegisterAction::Interval(
            RegisterInterval { action: Action::Respond(self.msg.clone()), interval: self.interval },
        )
    }
}

} // verus!
