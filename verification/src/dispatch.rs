//! Dispatch core: for one inbound chat event, every plugin in the registry is
//! attempted independently; a plugin whose lock is held is skipped for that
//! event with no error surfaced. Each action that comes back is routed to the
//! frame it owes: a reply frame for the origin-chat sink, or a structured
//! text frame for the broadcast sink. The concurrency itself lives with the
//! caller; `dispatch_event` is the exact sequential content of that fan-out:
//! which plugins step, what each produces, and the frame each action becomes.

use vstd::prelude::*;

use crate::action::Action;
use crate::announce::AnnouncePlugin;
use crate::control::spec_priv_msg_frame;
use crate::control::priv_msg_frame;
use crate::distributor::NerdHubRaumMsg;
use crate::distributor::spec_broadcast_json;
use crate::echo::EchoPlugin;
use crate::echo::echo_fires;
use crate::echo::spec_echo_reply;
use crate::event::Event;
use crate::event::ChatMessage;
use crate::event::event_user;
use crate::event::event_msg;
use crate::meme::MemePlugin;
use crate::meme::meme_fires;
use crate::meme::spec_meme_command;
use crate::meme::spec_meme_url;
use crate::plugin::Plugin;
use crate::plugin::RegisterAction;
use crate::plugin::registers_respond_interval;
use crate::plugin::responds_with;
use crate::plugin::broadcasts_with;
use crate::strutil::has_prefix;

verus! {

/// The closed set of extensions this bot registers.
pub enum PluginKind {
    Announce(AnnouncePlugin),
    Echo(EchoPlugin),
    Meme(MemePlugin),
}

/// The registry: the ordered plugins built once at startup. Order is
/// preserved but carries no priority, since invocation is concurrent.
pub struct Plugins(pub Vec<PluginKind>);

/// The plugin's state after handling one event at `now_ms`.
pub open spec fn plugin_after(p: PluginKind, e: Event, now_ms: u64) -> PluginKind {
    match p {
        PluginKind::Announce(q) => PluginKind::Announce(q),
        PluginKind::Echo(q) => PluginKind::Echo(
            if echo_fires(q, now_ms) {
                EchoPlugin { last_called: now_ms, allowed_interval: q.allowed_interval }
            } else {
                q
            },
        ),
        PluginKind::Meme(q) => PluginKind::Meme(
            if meme_fires(q, now_ms) {
                MemePlugin { last_called: now_ms, allowed_interval: q.allowed_interval }
            } else {
                q
            },
        ),
    }
}

/// The plugin hands back an action for this event.
pub open spec fn plugin_produces(p: PluginKind, e: Event, now_ms: u64) -> bool {
    match p {
        PluginKind::Announce(_) => false,
        PluginKind::Echo(q) => echo_fires(q, now_ms),
        PluginKind::Meme(q) => meme_fires(q, now_ms) && has_prefix(
            event_msg(e),
            spec_meme_command(),
        ),
    }
}

/// The action that came back is exactly the one this plugin owes for this
/// event: `None` when it owes none, the exact reply or broadcast otherwise.
pub open spec fn plugin_response_matches(
    p: PluginKind,
    e: Event,
    now_ms: u64,
    r: Option<Action>,
) -> bool {
    match p {
        PluginKind::Announce(_) => r is None,
        PluginKind::Echo(q) => if echo_fires(q, now_ms) {
            responds_with(r, spec_echo_reply(event_user(e), event_msg(e)))
        } else {
            r is None
        },
        PluginKind::Meme(q) => if meme_fires(q, now_ms) && has_prefix(
            event_msg(e),
            spec_meme_command(),
        ) {
            broadcasts_with(r, "ShowMeme"@, spec_meme_url())
        } else {
            r is None
        },
    }
}

/// The registration each kind declares at startup.
pub open spec fn plugin_registration_matches(p: PluginKind, r: RegisterAction) -> bool {
    match p {
        PluginKind::Announce(q) => registers_respond_interval(r, q.interval, q.msg@),
        PluginKind::Echo(_) => r is NoAction,
        PluginKind::Meme(_) => r is NoAction,
    }
}

impl PluginKind {
    /// One attempt of one plugin on one event: the returned action and the
    /// state change are exactly those of the underlying plugin.
    pub fn handle_event(&mut self, e: Event, now_ms: u64) -> (r: Option<Action>)
        ensures
            *final(self) == plugin_after(*old(self), e, now_ms),
            plugin_response_matches(*old(self), e, now_ms, r),
            plugin_produces(*old(self), e, now_ms) == r.is_some(),
    {
        match self {
            PluginKind::Announce(p) => p.handle_event(e, now_ms),
            PluginKind::Echo(p) => p.handle_event(e, now_ms),
            PluginKind::Meme(p) => p.handle_event(e, now_ms),
        }
    }

    pub fn register_action(&self) -> (r: RegisterAction)
        ensures
            plugin_registration_matches(*self, r),
    {
        match self {
            PluginKind::Announce(p) => p.register_action(),
            PluginKind::Echo(p) => p.register_action(),
            PluginKind::Meme(p) => p.register_action(),
        }
    }
}

/// A frame routed to one of the two outbound sinks.
pub enum Routing {
    /// A reply frame for the origin-chat sink.
    Origin(String),
    /// A structured text frame for the broadcast sink.
    Broadcast(String),
}

/// The mathematical value of a routed frame.
pub enum RoutingView {
    Origin(Seq<char>),
    Broadcast(Seq<char>),
}

impl View for Routing {
    type V = RoutingView;

    open spec fn view(&self) -> RoutingView {
        match self {
            Routing::Origin(s) => RoutingView::Origin(s@),
            Routing::Broadcast(s) => RoutingView::Broadcast(s@),
        }
    }
}

/// The views of a vector of routed frames.
pub open spec fn routing_views(v: Seq<Routing>) -> Seq<RoutingView> {
    v.map_values(|r: Routing| r@)
}

/// The one routed frame a producing plugin owes for this event.
pub open spec fn spec_routing_of(p: PluginKind, e: Event, now_ms: u64) -> RoutingView {
    match p {
        PluginKind::Announce(_) => RoutingView::Origin(Seq::empty()),
        PluginKind::Echo(_) => RoutingView::Origin(
            spec_priv_msg_frame(spec_echo_reply(event_user(e), event_msg(e))),
        ),
        PluginKind::Meme(_) => RoutingView::Broadcast(
            spec_broadcast_json("ShowMeme"@, spec_meme_url()),
        ),
    }
}

/// The routed frames one event owes across the registry, in registry order:
/// a busy plugin contributes nothing, an available plugin contributes the one
/// frame of the action it produces, or nothing when it produces none.
pub open spec fn spec_routings(
    ps: Seq<PluginKind>,
    busy: Seq<bool>,
    e: Event,
    now_ms: u64,
) -> Seq<RoutingView>
    decreases ps.len(),
{
    if ps.len() == 0 || busy.len() == 0 {
        Seq::empty()
    } else {
        (if !busy[0] && plugin_produces(ps[0], e, now_ms) {
            seq![spec_routing_of(ps[0], e, now_ms)]
        } else {
            Seq::empty()
        }) + spec_routings(ps.skip(1), busy.skip(1), e, now_ms)
    }
}

/// At most one routing per plugin: dispatching one event over `N` plugins
/// yields at most `N` routings, however many are busy; a busy plugin is
/// skipped with no error surfaced to the caller.
pub proof fn lemma_dispatch_at_most_n(ps: Seq<PluginKind>, busy: Seq<bool>, e: Event, now_ms: u64)
    ensures
        spec_routings(ps, busy, e, now_ms).len() <= ps.len(),
    decreases ps.len(),
{
    if ps.len() > 0 && busy.len() > 0 {
        lemma_dispatch_at_most_n(ps.skip(1), busy.skip(1), e, now_ms);
    }
}

/// Turn one action into the frame it owes and the sink that frame is for.
pub fn route_action(a: Action) -> (r: Routing)
    ensures
        match a {
            Action::Respond(t) => r@ == RoutingView::Origin(spec_priv_msg_frame(t@)),
            Action::Broadcast(b) => r@ == RoutingView::Broadcast(
                spec_broadcast_json(b.kind@, b.url@),
            ),
        },
{
    match a {
        Action::Respond(t) => Routing::Origin(priv_msg_frame(t.as_str())),
        Action::Broadcast(b) => {
            let m = NerdHubRaumMsg::new(b.kind.as_str(), b.url.as_str());
            Routing::Broadcast(m.to_json())
        },
    }
}

/// Dispatch one chat event across the registry. `busy[i]` says plugin `i`'s
/// lock could not be taken: it is skipped, unchanged, and contributes no
/// routing. Every available plugin steps exactly once, and the routed frames
/// come back in registry order, at most one per plugin.
pub fn dispatch_event(plugins: &mut Plugins, busy: &Vec<bool>, e: &ChatMessage, now_ms: u64) -> (r:
    Vec<Routing>)
    requires
        busy@.len() == old(plugins).0@.len(),
    ensures
        final(plugins).0@.len() == old(plugins).0@.len(),
        forall|i: int|
            0 <= i < busy@.len() && busy@[i] ==> final(plugins).0@[i] == old(plugins).0@[i],
        forall|i: int|
            0 <= i < busy@.len() && !busy@[i] ==> final(plugins).0@[i] == plugin_after(
                old(plugins).0@[i],
                Event::ChatMessage(ChatMessage { user_name: e.user_name, msg: e.msg }),
                now_ms,
            ),
        routing_views(r@) == spec_routings(
            old(plugins).0@,
            busy@,
            Event::ChatMessage(ChatMessage { user_name: e.user_name, msg: e.msg }),
            now_ms,
        ),
        r@.len() <= old(plugins).0@.len(),
{
    let ghost old_ps = plugins.0@;
    let ghost ev = Event::ChatMessage(ChatMessage { user_name: e.user_name, msg: e.msg });
    let n: usize = plugins.0.len();
    let mut out: Vec<Routing> = Vec::new();
    let mut i: usize = 0;
    proof {
        assert(old_ps.skip(0) =~= old_ps);
        assert(busy@.skip(0) =~= busy@);
        assert(routing_views(out@) + spec_routings(old_ps, busy@, ev, now_ms) =~= spec_routings(
            old_ps,
            busy@,
            ev,
            now_ms,
        ));
    }
    while i < n
        invariant
            i <= n,
            n == old_ps.len(),
            busy@.len() == n,
            ev == Event::ChatMessage(ChatMessage { user_name: e.user_name, msg: e.msg }),
            plugins.0@.len() == n,
            forall|k: int| i <= k < n ==> plugins.0@[k] == old_ps[k],
            forall|k: int| 0 <= k < i && busy@[k] ==> plugins.0@[k] == old_ps[k],
            forall|k: int|
                0 <= k < i && !busy@[k] ==> plugins.0@[k] == plugin_after(old_ps[k], ev, now_ms),
            routing_views(out@) + spec_routings(
                old_ps.skip(i as int),
                busy@.skip(i as int),
                ev,
                now_ms,
            ) == spec_routings(old_ps, busy@, ev, now_ms),
        decreases n - i,
    {
        proof {
            assert(old_ps.skip(i as int).skip(1) =~= old_ps.skip(i + 1));
            assert(busy@.skip(i as int).skip(1) =~= busy@.skip(i + 1));
            assert(old_ps.skip(i as int)[0] == old_ps[i as int]);
            assert(busy@.skip(i as int)[0] == busy@[i as int]);
        }
        if !busy[i] {
            let ghost before = plugins.0@;
            let mut p: PluginKind = plugins.0.remove(i);
            let user_name: String = e.user_name.clone();
            let msg: String = e.msg.clone();
            let ev2: Event = Event::ChatMessage(ChatMessage { user_name, msg });
            proof {
                assert(ev2 == ev);
            }
            let a: Option<Action> = p.handle_event(ev2, now_ms);
            plugins.0.insert(i, p);
            proof {
                assert(plugins.0@ =~= before.update(i as int, plugins.0@[i as int]));
            }
            match a {
                Some(act) => {
                    let routed: Routing = route_action(act);
                    proof {
                        assert(routing_views(out@.push(routed)) =~= routing_views(out@) + seq![
                            routed@,
                        ]);
                        assert(routed@ == spec_routing_of(old_ps[i as int], ev, now_ms));
                        assert(routing_views(out@.push(routed)) + spec_routings(
                            old_ps.skip(i + 1),
                            busy@.skip(i + 1),
                            ev,
                            now_ms,
                        ) =~= routing_views(out@) + spec_routings(
                            old_ps.skip(i as int),
                            busy@.skip(i as int),
                            ev,
                            now_ms,
                        ));
                    }
                    out.push(routed);
                },
                None => {
                    proof {
                        assert(spec_routings(
                            old_ps.skip(i as int),
                            busy@.skip(i as int),
                            ev,
                            now_ms,
                        ) =~= spec_routings(old_ps.skip(i + 1), busy@.skip(i + 1), ev, now_ms));
                    }
                },
            }
        } else {
            proof {
                assert(spec_routings(old_ps.skip(i as int), busy@.skip(i as int), ev, now_ms)
                    =~= spec_routings(old_ps.skip(i + 1), busy@.skip(i + 1), ev, now_ms));
            }
        }
        i = i + 1;
    }
    proof {
        assert(old_ps.skip(n as int) =~= Seq::<PluginKind>::empty());
        assert(routing_views(out@) =~= routing_views(out@) + spec_routings(
            old_ps.skip(n as int),
            busy@.skip(n as int),
            ev,
            now_ms,
        ));
        lemma_dispatch_at_most_n(old_ps, busy@, ev, now_ms);
        assert(out@.len() == routing_views(out@).len());
    }
    out
}

} // verus!
