//! Core logic of a line-oriented chat-relay bot.
//!
//! Inbound transport frames are split into protocol lines, each line is
//! classified as a control line or a tagged chat line, control lines are
//! parsed with a fixed four-group pattern, tagged lines are translated into
//! chat events, and events are dispatched across a registry of plugins whose
//! actions are routed to one of two outbound sinks. The connection handling
//! itself (websockets, timers, locks) lives outside this crate; everything
//! here is a pure decision or translation step with a proved contract.

pub mod action;
pub mod announce;
pub mod announcer;
pub mod control;
pub mod dispatch;
pub mod distributor;
pub mod echo;
pub mod event;
pub mod meme;
pub mod plugin;
pub mod splitter;
pub mod strutil;
pub mod twitch;
