//! Interval announcer: the state of one per-interval background loop that
//! periodically emits a fixed reply onto the origin-chat sink. The loop
//! itself (timer waits, lock attempts, the fixed backoff between retries)
//! lives with the caller; the state here decides when a send is due and, on a
//! successful send, schedules the next one a full interval later — relative
//! to the actual send, so a delayed send never causes catch-up bursts.

use vstd::prelude::*;

use crate::control::spec_priv_msg_frame;
use crate::control::priv_msg_frame;

verus! {

pub struct Announcer {
    /// The announcement interval in milliseconds.
    pub interval: u64,
    /// The fixed announcement text.
    pub msg: String,
    /// The earliest moment the next send is allowed, in milliseconds on the
    /// caller's clock.
    pub next_due: u64,
}

/// The announcer's state after a successful send at `t`: the next send is due
/// one full interval after the actual send.
pub open spec fn spec_after_send(a: Announcer, t: u64) -> Announcer
    recommends
        t + a.interval <= u64::MAX,
{
    Announcer { interval: a.interval, msg: a.msg, next_due: (t + a.interval) as u64 }
}

impl Announcer {
    /// A fresh announcer whose first send is due at once.
    pub fn new(interval: u64, msg: &str, now_ms: u64) -> (r: Self)
        ensures
            r.interval == interval,
            r.msg@ == msg@,
            r.next_due == now_ms,
    {
        Announcer { interval, msg: msg.to_owned(), next_due: now_ms }
    }

    /// A send is due: the clock has reached the next allowed moment.
    pub fn ready(&self, now_ms: u64) -> (r: bool)
        ensures
            r == (now_ms >= self.next_due),
    {
        now_ms >= self.next_due
    }

    /// Record a successful send at `now_ms` and schedule the next one a full
    /// interval later.
    pub fn record_send(&mut self, now_ms: u64)
        requires
            now_ms >= old(self).next_due,
            now_ms + old(self).interval <= u64::MAX,
        ensures
            *final(self) == spec_after_send(*old(self), now_ms),
            final(self).next_due == now_ms + old(self).interval,
            final(self).interval == old(self).interval,
            final(self).msg == old(self).msg,
    {
        self.next_due = now_ms + self.interval;
    }

    /// The one reply frame this announcer sends.
    pub fn frame(&self) -> (r: String)
        ensures
            r@ == spec_priv_msg_frame(self.msg@),
    {
        priv_msg_frame(self.msg.as_str())
    }

    /// The fixed backoff before retrying a send whose sink lock could not be
    /// taken, in milliseconds. Retries continue within the same tick; a tick
    /// is never skipped silently.
    pub fn retry_backoff_ms(&self) -> (r: u64)
        ensures
            r == 100,
    {
        100
    }
}

/// Between two consecutive successful sends at `t1` and then `t2`, at least
/// one full interval elapses: a send is allowed only once it is due, and a
/// send at `t1` makes the next one due at `t1 + interval` — no catch-up or
/// burst sending after a delay.
pub proof fn lemma_announcer_spacing(a: Announcer, t1: u64, t2: u64)
    requires
        t1 >= a.next_due,
        t1 + a.interval <= u64::MAX,
        t2 >= spec_after_send(a, t1).next_due,
    ensures
        t2 - t1 >= a.interval,
{
}

} // verus!
