use dachsb0t::action::Action;
use dachsb0t::action::BroadcastMsg;
use dachsb0t::announce::AnnouncePlugin;
use dachsb0t::announcer::Announcer;
use dachsb0t::control::auth_frames;
use dachsb0t::control::control_frames;
use dachsb0t::control::parse_control;
use dachsb0t::control::priv_msg_frame;
use dachsb0t::dispatch::dispatch_event;
use dachsb0t::dispatch::route_action;
use dachsb0t::dispatch::PluginKind;
use dachsb0t::dispatch::Plugins;
use dachsb0t::dispatch::Routing;
use dachsb0t::distributor::NerdHubRaumMsg;
use dachsb0t::echo::EchoPlugin;
use dachsb0t::event::translate_event;
use dachsb0t::event::ChatMessage;
use dachsb0t::event::Event;
use dachsb0t::meme::meme_url;
use dachsb0t::meme::MemePlugin;
use dachsb0t::plugin::Plugin;
use dachsb0t::plugin::RegisterAction;
use dachsb0t::splitter::split_frame;
use dachsb0t::twitch::handle_line;
use dachsb0t::twitch::lifecycle_step;
use dachsb0t::twitch::Lifecycle;
use dachsb0t::twitch::process_frame;
use dachsb0t::twitch::LineOutcome;

#[test]
fn test_regex() {
    let msg = ":tmi.twitch.tv 001 nerdachse :Welcome, GLHF!\r\n";

    let caps = parse_control(msg);

    let caps = caps.expect("no capture groups");

    assert_eq!(caps.sender, ":tmi.twitch.tv");
    assert_eq!(caps.code, "001");
    assert_eq!(caps.channel, "nerdachse");
    assert_eq!(caps.trailing, ":Welcome, GLHF!\r");
}

#[test]
fn twitch_test_regex() {
    let msg = ":tmi.twitch.tv 001 nerdachse :Welcome, GLHF!\r\n";

    let caps = parse_control(msg);

    let caps = caps.expect("no capture groups");

    assert_eq!(caps.sender, ":tmi.twitch.tv");
    assert_eq!(caps.code, "001");
    assert_eq!(caps.channel, "nerdachse");
    assert_eq!(caps.trailing, ":Welcome, GLHF!\r");
}

#[test]
fn websocket_to_irc_line_split() {
    let msg = ":tmi.twitch.tv 001 nerdachse :Welcome, GLHF!\r\n:tmi.twitch.tv 002 nerdachse :Your host is tmi.twitch.tv\r\n:tmi.twitch.tv 003 nerdachse :This server is rather new\r\n:tmi.twitch.tv 004 nerdachse :-\r\n:tmi.twitch.tv 375 nerdachse :-\r\n:tmi.twitch.tv 372 nerdachse :You are in a maze of twisty passages, all alike.\r\n:tmi.twitch.tv 376 nerdachse :>\r\n";

    let lines = split_frame(msg);
    let mut lines = lines.iter();

    assert_eq!(
        lines.next().map(|s| s.as_str()),
        Some(":tmi.twitch.tv 001 nerdachse :Welcome, GLHF!")
    );
    assert_eq!(
        lines.next().map(|s| s.as_str()),
        Some(":tmi.twitch.tv 002 nerdachse :Your host is tmi.twitch.tv")
    );
    assert_eq!(
        lines.next().map(|s| s.as_str()),
        Some(":tmi.twitch.tv 003 nerdachse :This server is rather new")
    );
    assert_eq!(
        lines.next().map(|s| s.as_str()),
        Some(":tmi.twitch.tv 004 nerdachse :-")
    );
    assert_eq!(
        lines.next().map(|s| s.as_str()),
        Some(":tmi.twitch.tv 375 nerdachse :-")
    );
    assert_eq!(
        lines.next().map(|s| s.as_str()),
        Some(":tmi.twitch.tv 372 nerdachse :You are in a maze of twisty passages, all alike.")
    );
    assert_eq!(
        lines.next().map(|s| s.as_str()),
        Some(":tmi.twitch.tv 376 nerdachse :>")
    );
}

#[test]
fn twitch_websocket_to_irc_line_split() {
    let msg = ":tmi.twitch.tv 001 nerdachse :Welcome, GLHF!\r\n:tmi.twitch.tv 002 nerdachse :Your host is tmi.twitch.tv\r\n:tmi.twitch.tv 003 nerdachse :This server is rather new\r\n:tmi.twitch.tv 004 nerdachse :-\r\n:tmi.twitch.tv 375 nerdachse :-\r\n:tmi.twitch.tv 372 nerdachse :You are in a maze of twisty passages, all alike.\r\n:tmi.twitch.tv 376 nerdachse :>\r\n";

    let lines = split_frame(msg);
    assert_eq!(lines.len(), 7);
    assert_eq!(lines[0], ":tmi.twitch.tv 001 nerdachse :Welcome, GLHF!");
    assert_eq!(lines[1], ":tmi.twitch.tv 002 nerdachse :Your host is tmi.twitch.tv");
    assert_eq!(lines[2], ":tmi.twitch.tv 003 nerdachse :This server is rather new");
    assert_eq!(lines[3], ":tmi.twitch.tv 004 nerdachse :-");
    assert_eq!(lines[4], ":tmi.twitch.tv 375 nerdachse :-");
    assert_eq!(
        lines[5],
        ":tmi.twitch.tv 372 nerdachse :You are in a maze of twisty passages, all alike."
    );
    assert_eq!(lines[6], ":tmi.twitch.tv 376 nerdachse :>");
}

#[test]
fn splitter_empty_frame_yields_no_lines() {
    assert_eq!(split_frame("").len(), 0);
}

#[test]
fn splitter_keeps_order_and_count() {
    let lines = split_frame("one\r\ntwo\r\nthree\r\n");
    assert_eq!(lines, vec!["one", "two", "three"]);
    let lines = split_frame("one\ntwo");
    assert_eq!(lines, vec!["one", "two"]);
}

#[test]
fn splitter_keeps_empty_middle_lines() {
    assert_eq!(split_frame("a\n\nb"), vec!["a", "", "b"]);
}

#[test]
fn lifecycle_joins_on_welcome_code_only() {
    assert_eq!(lifecycle_step(Lifecycle::Connected, "372"), Lifecycle::Connected);
    assert_eq!(lifecycle_step(Lifecycle::Connected, "001"), Lifecycle::Joined);
    assert_eq!(lifecycle_step(Lifecycle::Joined, "372"), Lifecycle::Joined);
}

#[test]
fn classifier_extracts_all_four_groups() {
    let pc = parse_control(":tmi.example.tv 001 nerdachse :Welcome, GLHF!").expect("must match");
    assert_eq!(pc.sender, ":tmi.example.tv");
    assert_eq!(pc.code, "001");
    assert_eq!(pc.channel, "nerdachse");
    assert_eq!(pc.trailing, ":Welcome, GLHF!");
}

#[test]
fn parse_control_rejects_line_with_too_few_tokens() {
    assert!(parse_control(":onlyone token").is_none());
    assert!(parse_control("").is_none());
}

#[test]
fn parse_control_skips_past_non_space_whitespace() {
    // A tab is whitespace but not a token separator: no match can begin at or
    // before it, so the match starts right after it.
    let pc = parse_control("x\ty a b c d").expect("must match after the tab");
    assert_eq!(pc.sender, "y");
    assert_eq!(pc.code, "a");
    assert_eq!(pc.channel, "b");
    assert_eq!(pc.trailing, "c d");
}

#[test]
fn parse_control_allows_empty_groups() {
    // Adjacent spaces make empty tokens, as the greedy pattern allows.
    let pc = parse_control("a   b").expect("must match");
    assert_eq!(pc.sender, "a");
    assert_eq!(pc.code, "");
    assert_eq!(pc.channel, "");
    assert_eq!(pc.trailing, "b");
}

#[test]
fn parsing_twice_yields_identical_fields() {
    let line = ":tmi.twitch.tv 001 nerdachse :Welcome, GLHF!";
    let a = parse_control(line).expect("must match");
    let b = parse_control(line).expect("must match");
    assert_eq!(a.sender, b.sender);
    assert_eq!(a.code, b.code);
    assert_eq!(a.channel, b.channel);
    assert_eq!(a.trailing, b.trailing);
}

#[test]
fn welcome_code_emits_cap_request_then_join() {
    let frames = control_frames("001");
    assert_eq!(frames.len(), 2);
    assert_eq!(frames[0], "CAP REQ :twitch.tv/tags");
    assert_eq!(frames[1], "JOIN #nerdachse");
}

#[test]
fn other_codes_emit_no_frames() {
    assert_eq!(control_frames("CAP").len(), 0);
    assert_eq!(control_frames("372").len(), 0);
    assert_eq!(control_frames("").len(), 0);
}

#[test]
fn auth_frames_are_pass_then_nick() {
    let frames = auth_frames("SECRET-REDACTED");
    assert_eq!(frames.len(), 2);
    assert_eq!(frames[0], "PASS oauth:SECRET-REDACTED");
    assert_eq!(frames[1], "NICK dachsb0t");
}

#[test]
fn priv_msg_frame_targets_configured_channel() {
    assert_eq!(priv_msg_frame("Howdy"), "PRIVMSG #nerdachse :Howdy");
}

#[test]
fn tagged_line_without_colon_gives_empty_message() {
    let ev = translate_event("@display-name=Nerdachse;color=#FF0000 PRIVMSG");
    assert_eq!(ev.msg, "");
    assert_eq!(ev.user_name, "Nerdachse");
}

#[test]
fn tagged_line_fields_are_extracted() {
    let ev = translate_event(
        "@badge-info=;display-name=Nerdachse;mod=0 :nerd!nerd@nerd.tmi.twitch.tv PRIVMSG #nerdachse :hello world",
    );
    assert_eq!(ev.msg, "hello world");
    assert_eq!(ev.user_name, "Nerdachse");
}

#[test]
fn tagged_line_without_marker_gives_empty_user() {
    let ev = translate_event("@badge-info=;mod=0 PRIVMSG #nerdachse :hi");
    assert_eq!(ev.user_name, "");
    assert_eq!(ev.msg, "hi");
}

#[test]
fn handle_line_classifies_by_first_character() {
    match handle_line(":tmi.twitch.tv 001 nerdachse :Welcome") {
        LineOutcome::Control(frames) => assert_eq!(frames.len(), 2),
        _ => panic!("expected a control outcome"),
    }
    match handle_line("@display-name=Nerdachse; :x PRIVMSG #nerdachse :yo") {
        LineOutcome::Chat(ev) => {
            assert_eq!(ev.user_name, "Nerdachse");
            assert_eq!(ev.msg, "yo");
        }
        _ => panic!("expected a chat outcome"),
    }
    assert!(matches!(handle_line("PING :tmi.twitch.tv"), LineOutcome::Unrecognized));
    assert!(matches!(handle_line(""), LineOutcome::Unrecognized));
    assert!(matches!(handle_line(":toofew tokens"), LineOutcome::Malformed));
}

#[test]
fn process_frame_decides_every_line() {
    let outcomes = process_frame(":tmi.twitch.tv 001 nerdachse :Welcome\r\nPING\r\n@display-name=N; :x P #c :hi\r\n");
    assert_eq!(outcomes.len(), 3);
    assert!(matches!(outcomes[0], LineOutcome::Control(_)));
    assert!(matches!(outcomes[1], LineOutcome::Unrecognized));
    assert!(matches!(outcomes[2], LineOutcome::Chat(_)));
}

#[test]
fn broadcast_serializes_to_exact_json() {
    let url = "https://example.com/a.jpg";
    let msg = NerdHubRaumMsg::new("ShowMeme", url);
    assert_eq!(msg.to_json(), "{\"type\":\"ShowMeme\",\"url\":\"https://example.com/a.jpg\"}");
}

#[test]
fn broadcast_json_escapes_special_characters() {
    let msg = NerdHubRaumMsg::new("a\"b", "c\\d\ne");
    assert_eq!(msg.to_json(), "{\"type\":\"a\\\"b\",\"url\":\"c\\\\d\\ne\"}");
    let msg = NerdHubRaumMsg::new("\u{1}", "\t");
    assert_eq!(msg.to_json(), "{\"type\":\"\\u0001\",\"url\":\"\\t\"}");
}

#[test]
fn route_respond_to_origin_and_broadcast_to_broadcast() {
    match route_action(Action::Respond("hi".to_string())) {
        Routing::Origin(frame) => assert_eq!(frame, "PRIVMSG #nerdachse :hi"),
        _ => panic!("expected the origin sink"),
    }
    match route_action(Action::Broadcast(BroadcastMsg::new("ShowMeme", "u"))) {
        Routing::Broadcast(frame) => assert_eq!(frame, "{\"type\":\"ShowMeme\",\"url\":\"u\"}"),
        _ => panic!("expected the broadcast sink"),
    }
}

#[test]
fn echo_replies_once_per_interval() {
    let mut echo = EchoPlugin::new(1000, 5000);
    assert_eq!(echo.last_called, 4000);
    let ev = Event::ChatMessage(ChatMessage {
        user_name: "alice".to_string(),
        msg: "hi".to_string(),
    });
    match echo.handle_event(ev, 6000) {
        Some(Action::Respond(t)) => assert_eq!(t, "alice wrote \"hi\", how wise of them!"),
        _ => panic!("expected a reply"),
    }
    assert_eq!(echo.last_called, 6000);
    let ev = Event::ChatMessage(ChatMessage {
        user_name: "alice".to_string(),
        msg: "hi".to_string(),
    });
    assert!(echo.handle_event(ev, 6500).is_none());
    assert_eq!(echo.last_called, 6000);
}

#[test]
fn meme_broadcasts_only_on_command() {
    let mut meme = MemePlugin::new(1000, 5000);
    let ev = Event::ChatMessage(ChatMessage {
        user_name: "a".to_string(),
        msg: "!meme please".to_string(),
    });
    match meme.handle_event(ev, 6001) {
        Some(Action::Broadcast(b)) => {
            assert_eq!(b.kind, "ShowMeme");
            assert_eq!(b.url, meme_url());
        }
        _ => panic!("expected a broadcast"),
    }
    let mut meme = MemePlugin::new(1000, 5000);
    let ev = Event::ChatMessage(ChatMessage {
        user_name: "a".to_string(),
        msg: "hello".to_string(),
    });
    assert!(meme.handle_event(ev, 6001).is_none());
    assert_eq!(meme.last_called, 6001);
}

#[test]
fn announce_plugin_registers_its_interval() {
    let plugin = AnnouncePlugin::new(600_000, "visit the forum");
    let ev = Event::ChatMessage(ChatMessage {
        user_name: "a".to_string(),
        msg: "hi".to_string(),
    });
    let mut plugin2 = AnnouncePlugin::new(600_000, "visit the forum");
    assert!(plugin2.handle_event(ev, 1).is_none());
    match plugin.register_action() {
        RegisterAction::Interval(ri) => {
            assert_eq!(ri.interval, 600_000);
            match ri.action {
                Action::Respond(t) => assert_eq!(t, "visit the forum"),
                _ => panic!("expected a reply action"),
            }
        }
        RegisterAction::NoAction => panic!("expected an interval registration"),
    }
    assert!(matches!(EchoPlugin::new(1, 1).register_action(), RegisterAction::NoAction));
    assert!(matches!(MemePlugin::new(1, 1).register_action(), RegisterAction::NoAction));
}

#[test]
fn plugin_names_identify_each_plugin() {
    assert_eq!(AnnouncePlugin::new(1, "x").name(), "AnnouncePlugin for: x");
    assert_eq!(EchoPlugin::new(1, 1).name(), "EchoPlugin");
    assert_eq!(MemePlugin::new(1, 1).name(), "MemePlugin");
}

#[test]
fn dispatch_routes_at_most_one_action_per_plugin() {
    let mut plugins = Plugins(vec![
        PluginKind::Announce(AnnouncePlugin::new(600_000, "announcement")),
        PluginKind::Echo(EchoPlugin::new(0, 1000)),
        PluginKind::Meme(MemePlugin::new(0, 1000)),
    ]);
    let busy = vec![false, false, false];
    let event = ChatMessage { user_name: "alice".to_string(), msg: "!meme".to_string() };
    let routings = dispatch_event(&mut plugins, &busy, &event, 2000);
    assert!(routings.len() <= 3);
    assert_eq!(routings.len(), 2);
    match &routings[0] {
        Routing::Origin(frame) => {
            assert_eq!(frame, "PRIVMSG #nerdachse :alice wrote \"!meme\", how wise of them!")
        }
        _ => panic!("expected the origin sink first"),
    }
    match &routings[1] {
        Routing::Broadcast(frame) => {
            assert!(frame.starts_with("{\"type\":\"ShowMeme\",\"url\":\""));
        }
        _ => panic!("expected the broadcast sink second"),
    }
}

#[test]
fn busy_plugin_is_skipped_without_error() {
    let mut plugins = Plugins(vec![
        PluginKind::Echo(EchoPlugin::new(0, 1000)),
        PluginKind::Meme(MemePlugin::new(0, 1000)),
    ]);
    let busy = vec![true, false];
    let event = ChatMessage { user_name: "alice".to_string(), msg: "!meme".to_string() };
    let routings = dispatch_event(&mut plugins, &busy, &event, 2000);
    assert_eq!(routings.len(), 1);
    assert!(matches!(routings[0], Routing::Broadcast(_)));
    match &plugins.0[0] {
        PluginKind::Echo(echo) => assert_eq!(echo.last_called, 1000),
        _ => panic!("expected the echo plugin to stay in place"),
    }
    match &plugins.0[1] {
        PluginKind::Meme(meme) => assert_eq!(meme.last_called, 2000),
        _ => panic!("expected the meme plugin to stay in place"),
    }
}

#[test]
fn announcer_spaces_sends_by_at_least_one_interval() {
    let mut announcer = Announcer::new(1000, "hi folks", 0);
    assert!(announcer.ready(0));
    announcer.record_send(0);
    assert!(!announcer.ready(999));
    assert!(announcer.ready(1000));
    announcer.record_send(1700);
    assert!(!announcer.ready(2699));
    assert!(announcer.ready(2700));
    assert_eq!(announcer.frame(), "PRIVMSG #nerdachse :hi folks");
    assert_eq!(announcer.retry_backoff_ms(), 100);
}
