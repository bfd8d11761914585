//! The plugin boundary: the capability set every extension offers, and what a
//! plugin may declare once at startup.

use vstd::prelude::*;

use crate::action::Action;
use crate::event::Event;

verus! {

/// A recurring action: emit `action` once per interval. The interval is in
/// milliseconds.
pub struct RegisterInterval {
    pub action: Action,
    pub interval: u64,
}

/// What a plugin declares at registration time: nothing, or one recurring
/// interval action.
pub enum RegisterAction {
    NoAction,
    Interval(RegisterInterval),
}

/// `a` is a reply action carrying exactly `text`.
pub open spec fn action_responds(a: Action, text: Seq<char>) -> bool {
    match a {
        Action::Respond(t) => t@ == text,
        Action::Broadcast(_) => false,
    }
}

/// `a` is a broadcast action carrying exactly `kind` and `url`.
pub open spec fn action_broadcasts(a: Action, kind: Seq<char>, url: Seq<char>) -> bool {
    match a {
        Action::Respond(_) => false,
        Action::Broadcast(b) => b.kind@ == kind && b.url@ == url,
    }
}

/// `r` is a reply action carrying exactly `text`; `None` does not qualify.
pub open spec fn responds_with(r: Option<Action>, text: Seq<char>) -> bool {
    match r {
        Some(a) => action_responds(a, text),
        None => false,
    }
}

/// `r` is a broadcast action carrying exactly `kind` and `url`.
pub open spec fn broadcasts_with(r: Option<Action>, kind: Seq<char>, url: Seq<char>) -> bool {
    match r {
        Some(a) => action_broadcasts(a, kind, url),
        None => false,
    }
}

/// `r` declares one recurring reply of `text` every `interval` milliseconds.
pub open spec fn registers_respond_interval(
    r: RegisterAction,
    interval: u64,
    text: Seq<char>,
) -> bool {
    match r {
        RegisterAction::Interval(ri) => ri.interval == interval && action_responds(
            ri.action,
            text,
        ),
        RegisterAction::NoAction => false,
    }
}

/// The capability set of an extension: a name, a handler that receives one
/// event and optionally produces one action, and the zero-or-one recurring
/// action it declares at startup. Each instance owns its private mutable
/// state; the moment `now_ms` (milliseconds on the caller's clock) is handed
/// in by the caller, so a handler is a pure step of that state.
pub trait Plugin {
    fn name(&self) -> String;

    fn handle_event(&mut self, e: Event, now_ms: u64) -> Option<Action>;

    fn register_action(&self) -> RegisterAction;
}

} // verus!
