use open_sessionbar::cli::{
    command, flag_value, parse_anim, parse_format, parse_port, parse_tick, parse_u16, Command,
    FlagValue, DEFAULT_PORT,
};
use open_sessionbar::client::{healthy_reply, sse_payload, Client};
use open_sessionbar::format::{
    bar_classes, bar_text, eww, i3blocks, is_busy, is_busy_opt, json, mode_hex, plain, polybar,
    render, sanitize_class, tmux, tooltip_lines, waybar, Format,
};
use open_sessionbar::install::{
    cmd, installed_line, is_sessionbar_entry, keep_entries, looks_like_jsonc, plugin_present,
    register_plan, registered, retain_flagged, unregister_plan, InstallTarget, PluginAction, PluginEntry,
    RegisterOutcome, UnregisterOutcome, PLUGIN_SPEC, VERSION,
};
use open_sessionbar::watch::{WatchEvent, WatchState};
use open_sessionbar::model::{default_kind, SessionEntry, Snapshot, Summary};
use open_sessionbar::spinner::{Anim, AnimateMode, SpinnerStyle, RING_OUTLINE};
use open_sessionbar::text::{decimal_string, join, str_eq, trimmed, trimmed_start};
use open_sessionbar::tui::{is_quit, view, Key, Msg, Paint, TuiState};

fn entry(title: &str, status: &str, detail: &str, age: &str, mode: Option<&str>) -> SessionEntry {
    SessionEntry {
        id: format!("id-{title}"),
        title: title.into(),
        status: status.into(),
        detail: detail.into(),
        updated: 1782025564412,
        age_label: age.into(),
        mode: mode.map(|m| m.into()),
    }
}

fn snap(kind: &str, headline: &str, mode: Option<&str>, sessions: Vec<SessionEntry>) -> Snapshot {
    Snapshot {
        summary: Summary {
            total: sessions.len() as u32,
            busy: 1,
            waiting: 2,
            idle: 0,
            headline: headline.into(),
            headline_kind: kind.into(),
            mode: mode.map(|m| m.into()),
        },
        sessions,
        at: 1782025574506,
    }
}

fn one_busy(mode: Option<&str>) -> Snapshot {
    snap("busy", "Working", mode, vec![entry("build it", "busy", "Working…", "13m", mode)])
}

fn glyph_anim(tick: usize) -> Anim {
    Anim { mode: AnimateMode::Glyph, spinner: SpinnerStyle::Braille, tick }
}

fn args(v: &[&str]) -> Vec<String> {
    v.iter().map(|s| s.to_string()).collect()
}

const ALL_FORMATS: [Format; 7] = [
    Format::Waybar,
    Format::I3blocks,
    Format::Polybar,
    Format::Eww,
    Format::Tmux,
    Format::Plain,
    Format::Json,
];

// ---- model ----

#[test]
fn glyph_per_status() {
    assert_eq!(entry("a", "waiting", "", "", None).glyph(), "★");
    assert_eq!(entry("a", "busy", "", "", None).glyph(), "●");
    assert_eq!(entry("a", "done", "", "", None).glyph(), "✓");
    assert_eq!(entry("a", "idle", "", "", None).glyph(), "○");
    assert_eq!(entry("a", "weird", "", "", None).glyph(), "○");
}

#[test]
fn snapshot_defaults() {
    let s = Snapshot::default();
    assert!(s.is_empty());
    assert_eq!(s.at, 0);
    assert_eq!(s.summary.headline_kind, "");
    assert_eq!(default_kind(), "idle");
    assert!(!one_busy(None).is_empty());
}

// ---- spinner ----

#[test]
fn spinner_and_animate_names() {
    assert_eq!(AnimateMode::parse("off"), Some(AnimateMode::Off));
    assert_eq!(AnimateMode::parse("none"), Some(AnimateMode::Off));
    assert_eq!(AnimateMode::parse("glyph"), Some(AnimateMode::Glyph));
    assert_eq!(AnimateMode::parse("pulse"), Some(AnimateMode::Pulse));
    assert_eq!(AnimateMode::parse("Pulse"), None);
    assert_eq!(SpinnerStyle::parse("braille"), Some(SpinnerStyle::Braille));
    assert_eq!(SpinnerStyle::parse("shimmer"), Some(SpinnerStyle::Shimmer));
    assert_eq!(SpinnerStyle::parse("dots"), Some(SpinnerStyle::Dots));
    assert_eq!(SpinnerStyle::parse("ring"), Some(SpinnerStyle::Ring));
    assert_eq!(SpinnerStyle::parse("ring-comet"), Some(SpinnerStyle::RingComet));
    assert_eq!(SpinnerStyle::parse("ringcomet"), Some(SpinnerStyle::RingComet));
    assert_eq!(SpinnerStyle::parse("spin"), None);
}

#[test]
fn frame_tables() {
    assert_eq!(SpinnerStyle::Braille.frames().len(), 8);
    assert_eq!(SpinnerStyle::Shimmer.frames().len(), 8);
    assert_eq!(SpinnerStyle::Dots.frames().len(), 10);
    assert_eq!(SpinnerStyle::Ring.frames().len(), 12);
    assert_eq!(SpinnerStyle::RingComet.frames().len(), 12);
    assert_eq!(SpinnerStyle::Braille.frame(0), "⠋");
    assert_eq!(SpinnerStyle::Braille.frames(), &["⠋", "⠙", "⠸", "⢰", "⣠", "⣄", "⡆", "⠇"]);
    assert_eq!(SpinnerStyle::Shimmer.frame(7), "⣷");
    assert_eq!(SpinnerStyle::Dots.frame(9), "⠓");
    assert_eq!(SpinnerStyle::Ring.frame(11), "⠂⠀");
    assert_eq!(RING_OUTLINE, "⣏⣹");
}

#[test]
fn frames_wrap_around() {
    for style in [
        SpinnerStyle::Braille,
        SpinnerStyle::Shimmer,
        SpinnerStyle::Dots,
        SpinnerStyle::Ring,
        SpinnerStyle::RingComet,
    ] {
        let n = style.frames().len();
        for t in 0..30 {
            assert_eq!(style.frame(t), style.frame(t + n));
            assert_ne!(style.frame(t), style.frame(t + 1));
        }
    }
    assert_eq!(SpinnerStyle::Braille.frame(8), "⠋");
}

#[test]
fn ring_frames_are_two_cells() {
    for i in 0..12 {
        assert_eq!(SpinnerStyle::Ring.frame(i).chars().count(), 2);
        assert_eq!(SpinnerStyle::RingComet.frame(i).chars().count(), 2);
    }
}

#[test]
fn anim_glyph_and_pulse() {
    assert_eq!(Anim::default().glyph(), None);
    assert!(!Anim::default().pulse());
    assert_eq!(glyph_anim(2).glyph(), Some("⠸"));
    let p = Anim { mode: AnimateMode::Pulse, ..Anim::default() };
    assert!(p.pulse());
    assert_eq!(p.glyph(), None);
}

// ---- format helpers ----

#[test]
fn format_names_round_trip() {
    let names = Format::all();
    assert_eq!(names, &["waybar", "i3blocks", "polybar", "eww", "tmux", "plain", "json"]);
    for (i, n) in names.iter().enumerate() {
        assert_eq!(Format::parse(n), Some(ALL_FORMATS[i]));
    }
    assert_eq!(Format::parse("nope"), None);
}

#[test]
fn busy_detection() {
    assert!(is_busy(&one_busy(None)));
    assert!(is_busy_opt(&one_busy(None)));
    let s = snap("idle", "", None, vec![]);
    assert!(!is_busy(&s));
}

#[test]
fn bar_text_counts_without_headline() {
    let a = Anim::default();
    assert_eq!(bar_text(&snap("idle", "", None, vec![]), a), "");
    let one = snap("idle", "", None, vec![entry("a", "idle", "", "", None)]);
    assert_eq!(bar_text(&one, a), "1 session");
    let three = snap(
        "idle",
        "",
        None,
        vec![entry("a", "idle", "", "", None), entry("b", "done", "", "", None), entry("c", "done", "", "", None)],
    );
    assert_eq!(bar_text(&three, a), "3 sessions");
    assert_eq!(bar_text(&one_busy(None), glyph_anim(1)), "⠙ Working");
}

#[test]
fn classes_and_sanitizing() {
    assert_eq!(sanitize_class("my agent!"), "my-agent-");
    assert_eq!(sanitize_class("A_z-9"), "A_z-9");
    assert_eq!(sanitize_class("plän"), "pl-n");
    assert_eq!(bar_classes(&one_busy(Some("my agent")), Anim::default()), "busy my-agent");
    assert_eq!(bar_classes(&one_busy(Some("")), Anim::default()), "busy");
    let idle = snap("idle", "Done", Some("build"), vec![entry("a", "done", "", "", None)]);
    let pulse = Anim { mode: AnimateMode::Pulse, ..Anim::default() };
    assert_eq!(bar_classes(&idle, pulse), "idle");
    assert_eq!(bar_classes(&one_busy(None), pulse), "busy pulse");
}

#[test]
fn mode_colors() {
    assert_eq!(mode_hex(Some("build")), Some("#034cff"));
    assert_eq!(mode_hex(Some("plan")), Some("#a753ae"));
    assert_eq!(mode_hex(Some("review")), None);
    assert_eq!(mode_hex(None), None);
}

#[test]
fn tooltip_lines_per_session() {
    let s = snap(
        "permission",
        "Waiting for your permission",
        None,
        vec![
            entry("search online", "waiting", "Waiting for your permission · WebSearch", "waiting <1m", Some("build")),
            entry("xp", "done", "Done", "54m", None),
        ],
    );
    let lines = tooltip_lines(&s);
    assert_eq!(lines.len(), 2);
    assert_eq!(lines[0], "★ search online [build]  Waiting for your permission · WebSearch  (waiting <1m)");
    assert_eq!(lines[1], "✓ xp  Done  (54m)");
}

// ---- the formats ----

#[test]
fn plain_output() {
    let s = snap(
        "busy",
        "Working",
        Some("plan"),
        vec![entry("t1", "busy", "Working…", "1m", Some("plan")), entry("t2", "idle", "", "2h", None)],
    );
    assert_eq!(plain::render(Some(&s), Anim::default()), "Working\n● t1 [plan]  Working…  (1m)\n○ t2    (2h)");
    assert_eq!(plain::render(None, Anim::default()), "");
}

#[test]
fn waybar_output() {
    assert_eq!(waybar::render(None, Anim::default()), r#"{"class":"empty","text":"","tooltip":""}"#);
    let s = snap(
        "permission",
        "Waiting for your permission",
        Some("build"),
        vec![entry("fix <b> & \"q\"", "waiting", "tool 'x'", "5m", Some("a&b"))],
    );
    let out = waybar::render(Some(&s), Anim::default());
    assert_eq!(
        out,
        "{\"class\":\"permission\",\"text\":\"Waiting for your permission\",\"tooltip\":\"<b>SessionBar</b>  1 sessions  ·  2 waiting\\n★ fix &lt;b&gt; &amp; &quot;q&quot; [a&amp;b]  <i>tool &apos;x&apos;</i>  (5m)\"}"
    );
    let v: serde_json::Value = serde_json::from_str(&out).unwrap();
    assert_eq!(v["class"], "permission");
}

#[test]
fn waybar_no_waiting_count_when_none_wait() {
    let mut s = one_busy(Some("build"));
    s.summary.waiting = 0;
    let out = waybar::render(Some(&s), Anim::default());
    let v: serde_json::Value = serde_json::from_str(&out).unwrap();
    assert_eq!(v["tooltip"], "<b>SessionBar</b>  1 sessions\n● build it [build]  <i>Working…</i>  (13m)");
    assert_eq!(v["class"], "busy build");
}

#[test]
fn i3blocks_output() {
    let a = Anim::default();
    assert_eq!(i3blocks::render(None, a), "\n\n");
    assert_eq!(i3blocks::render(Some(&one_busy(Some("build"))), a), "Working\n●\n#034cff");
    assert_eq!(i3blocks::render(Some(&one_busy(Some("custom"))), a), "Working\n●\n");
    let mut w = snap("question", "Question", None, vec![entry("q", "waiting", "", "", None)]);
    w.summary.waiting = 0;
    assert_eq!(i3blocks::render(Some(&w), a), "Question\n⏳1\n#ffffff");
    w.summary.waiting = 4;
    assert_eq!(i3blocks::render(Some(&w), a), "Question\n⏳4\n#ffffff");
    let idle = snap("idle", "", None, vec![entry("a", "idle", "", "", None), entry("b", "idle", "", "", None)]);
    assert_eq!(i3blocks::render(Some(&idle), a), "2 sessions\n2\n");
}

#[test]
fn polybar_output() {
    let a = Anim::default();
    assert_eq!(polybar::render(None, a), "");
    assert_eq!(polybar::render(Some(&one_busy(Some("plan"))), a), "%{F#a753ae}Working%{F-}");
    assert_eq!(polybar::render(Some(&one_busy(None)), a), "Working");
    let w = snap("permission", "Waiting", None, vec![entry("q", "waiting", "", "", None)]);
    assert_eq!(polybar::render(Some(&w), a), "%{F#ffffff}Waiting%{F-}");
    let d = snap("idle", "Done", None, vec![entry("q", "done", "", "", None)]);
    assert_eq!(polybar::render(Some(&d), a), "Done");
}

#[test]
fn tmux_output_doubles_hashes() {
    let a = Anim::default();
    assert_eq!(tmux::tmux_escape("issue #12 ## x"), "issue ##12 #### x");
    let mut s = one_busy(Some("build"));
    s.summary.headline = "fix #3".into();
    assert_eq!(tmux::render(Some(&s), a), "#[fg=#034cff]fix ##3#[default]");
    let w = snap("question", "Q #1", None, vec![entry("q", "waiting", "", "", None)]);
    assert_eq!(tmux::render(Some(&w), a), "#[fg=#ffffff,bold]Q ##1#[default]");
    assert_eq!(tmux::render(None, a), "");
}

#[test]
fn eww_output() {
    let a = Anim::default();
    assert_eq!(
        eww::render(None, a),
        r#"{"busy":0,"class":"empty","color":null,"mode":null,"text":"","total":0,"waiting":0}"#
    );
    assert_eq!(
        eww::render(Some(&one_busy(Some("build"))), a),
        r##"{"busy":1,"class":"busy build","color":"#034cff","headline":"Working","mode":"build","text":"Working","total":1,"waiting":2}"##
    );
    let d = snap("idle", "Done", Some("plan"), vec![entry("q", "done", "", "", None)]);
    assert_eq!(
        eww::render(Some(&d), a),
        r#"{"busy":1,"class":"idle","color":null,"headline":"Done","mode":"plan","text":"Done","total":1,"waiting":2}"#
    );
}

#[test]
fn json_output() {
    assert_eq!(
        json::render(None),
        r#"{"at":0,"sessions":[],"summary":{"busy":0,"headline":"","headlineKind":"idle","idle":0,"total":0,"waiting":0}}"#
    );
    let mut s = snap(
        "busy",
        "Say \"hi\"\n",
        Some("build"),
        vec![entry("a\u{1}b", "busy", "tab\there", "1m", None), entry("c\\d", "done", "", "2m", None)],
    );
    s.sessions[1].updated = -5;
    s.at = -1;
    let out = json::render(Some(&s));
    assert_eq!(
        out,
        [
            r#"{"at":-1,"sessions":[{"ageLabel":"1m","detail":"tab\there","id":"id-a\u0001b","status":"busy","title":"a\u0001b","updated":1782025564412},"#,
            r#"{"ageLabel":"2m","detail":"","id":"id-c\\d","status":"done","title":"c\\d","updated":-5}],"#,
            r#""summary":{"busy":1,"headline":"Say \"hi\"\n","headlineKind":"busy","idle":0,"mode":"build","total":2,"waiting":2}}"#
        ]
        .concat()
    );
    let v: serde_json::Value = serde_json::from_str(&out).unwrap();
    assert_eq!(v["sessions"][0]["title"], "a\u{1}b");
    assert_eq!(v["summary"]["mode"], "build");
    assert!(v["sessions"][0].get("mode").is_none());
}

#[test]
fn json_keeps_every_field() {
    let s = snap(
        "busy",
        "Working",
        Some("plan"),
        vec![entry("t", "busy", "d", "1m", Some("build")), entry("u", "idle", "", "2m", None)],
    );
    let v: serde_json::Value = serde_json::from_str(&json::render(Some(&s))).unwrap();
    assert_eq!(v["summary"]["mode"], "plan");
    assert_eq!(v["sessions"][0]["mode"], "build");
    assert_eq!(v["sessions"][0]["id"], "id-t");
    assert_eq!(v["sessions"][0]["updated"], 1782025564412i64);
    assert!(v["sessions"][1].get("mode").is_none());
    assert_eq!(v["at"], 1782025574506i64);
    assert_eq!(v["summary"]["total"], 2);
}

#[test]
fn unreachable_matches_empty_snapshot() {
    let empty = snap("idle", "", None, vec![]);
    for f in ALL_FORMATS {
        if f != Format::Json {
            assert_eq!(render(f, None, glyph_anim(3)), render(f, Some(&empty), glyph_anim(3)));
        }
    }
    assert_ne!(render(Format::Json, None, Anim::default()), render(Format::Json, Some(&empty), Anim::default()));
}

#[test]
fn animation_ignored_when_not_busy() {
    let d = snap("idle", "Done", Some("build"), vec![entry("q", "done", "", "", None)]);
    let pulse = Anim { mode: AnimateMode::Pulse, ..Anim::default() };
    for f in ALL_FORMATS {
        assert_eq!(render(f, Some(&d), glyph_anim(5)), render(f, Some(&d), pulse));
    }
}

#[test]
fn render_dispatches() {
    let s = one_busy(Some("build"));
    let a = glyph_anim(0);
    assert_eq!(render(Format::Waybar, Some(&s), a), waybar::render(Some(&s), a));
    assert_eq!(render(Format::Polybar, Some(&s), a), "%{F#034cff}⠋ Working%{F-}");
    assert_eq!(render(Format::Json, Some(&s), a), json::render(Some(&s)));
}

// ---- command line ----

#[test]
fn u16_parsing_follows_std() {
    for s in ["0", "7", "+80", "4098", "65535", "00012", "65536", "", "+", "-1", " 1", "1 ", "12a", "99999999999"] {
        assert_eq!(parse_u16(s), s.parse::<u16>().ok(), "{s:?}");
    }
}

#[test]
fn port_selection() {
    assert_eq!(parse_port(None, &args(&[])), DEFAULT_PORT);
    assert_eq!(parse_port(None, &args(&["--port", "5000"])), 5000);
    assert_eq!(parse_port(Some("6000"), &args(&["--port", "5000"])), 6000);
    assert_eq!(parse_port(Some("0"), &args(&["--port", "5000"])), 5000);
    assert_eq!(parse_port(Some("x"), &args(&[])), 4098);
    assert_eq!(parse_port(None, &args(&["--port", "0", "--port", "7"])), 7);
    assert_eq!(parse_port(None, &args(&["--port"])), 4098);
    assert_eq!(parse_port(None, &args(&["--port", "70000"])), 4098);
}

#[test]
fn format_flag() {
    assert_eq!(parse_format(&args(&[]), Format::Plain), Ok(Format::Plain));
    assert_eq!(parse_format(&args(&["--format", "waybar"]), Format::Plain), Ok(Format::Waybar));
    assert_eq!(parse_format(&args(&["-f", "tmux"]), Format::Plain), Ok(Format::Tmux));
    assert_eq!(parse_format(&args(&["--format"]), Format::Plain), Err("--format requires a value".to_string()));
    assert_eq!(
        parse_format(&args(&["--format", "nope"]), Format::Plain),
        Err("unknown format 'nope' (try: waybar, i3blocks, polybar, eww, tmux, plain, json)".to_string())
    );
    assert!(matches!(flag_value(&args(&["a", "-f", "x"]), "--format", "-f"), FlagValue::Given(v) if v == "x"));
    assert!(matches!(flag_value(&args(&["a"]), "--format", "-f"), FlagValue::Absent));
    assert!(matches!(flag_value(&args(&["-f"]), "--format", "-f"), FlagValue::Missing));
}

#[test]
fn animation_flags() {
    let a = parse_anim(&args(&[])).unwrap();
    assert_eq!((a.mode, a.spinner, a.tick), (AnimateMode::Off, SpinnerStyle::Braille, 0));
    let a = parse_anim(&args(&["-a", "glyph", "--spinner", "ring-comet"])).unwrap();
    assert_eq!((a.mode, a.spinner), (AnimateMode::Glyph, SpinnerStyle::RingComet));
    assert_eq!(parse_anim(&args(&["--animate"])).unwrap_err(), "--animate requires a value");
    assert_eq!(
        parse_anim(&args(&["--animate", "blink"])).unwrap_err(),
        "unknown animation 'blink' (try: off, glyph, pulse)"
    );
    assert_eq!(
        parse_anim(&args(&["--spinner", "x"])).unwrap_err(),
        "unknown spinner 'x' (try: braille, shimmer, dots, ring, ring-comet)"
    );
    assert_eq!(parse_tick(&args(&[])), Ok(100));
    assert_eq!(parse_tick(&args(&["--tick", "250"])), Ok(250));
    assert_eq!(parse_tick(&args(&["--tick", "0"])), Err("invalid --tick '0' (milliseconds, 1 to 65535)".to_string()));
    assert_eq!(parse_tick(&args(&["--tick"])), Err("--tick requires a value".to_string()));
}

#[test]
fn subcommands() {
    assert_eq!(command(&args(&[])), Command::Bar);
    assert_eq!(command(&args(&["bar", "--format", "x"])), Command::Bar);
    assert_eq!(command(&args(&["watch"])), Command::Watch);
    assert_eq!(command(&args(&["tui"])), Command::Tui);
    assert_eq!(command(&args(&["json"])), Command::Json);
    assert_eq!(command(&args(&["plug"])), Command::Plugin);
    assert_eq!(command(&args(&["plugin"])), Command::Plugin);
    assert_eq!(command(&args(&["-h"])), Command::Help);
    assert_eq!(command(&args(&["--help"])), Command::Help);
    assert_eq!(command(&args(&["help"])), Command::Help);
    assert_eq!(command(&args(&["-v"])), Command::Version);
    assert_eq!(command(&args(&["--version"])), Command::Version);
    assert_eq!(command(&args(&["frob"])), Command::Unknown);
}

// ---- client ----

#[test]
fn client_urls() {
    let c = Client::new(4098);
    assert_eq!(c.sessions_url(), "http://127.0.0.1:4098/sessions");
    assert_eq!(c.health_url(), "http://127.0.0.1:4098/health");
    assert_eq!(Client::new(7).stream_url(), "http://127.0.0.1:7/sessions/stream");
}

#[test]
fn health_replies() {
    assert!(healthy_reply(true, r#"{"ok":true,"name":"opencode-sessionbar"}"#));
    assert!(!healthy_reply(false, r#"{"ok":true,"name":"opencode-sessionbar"}"#));
    assert!(!healthy_reply(true, r#"{"ok":true,"name":"other"}"#));
    assert!(!healthy_reply(true, r#"{"ok":true,"name":7}"#));
    assert!(!healthy_reply(true, r#"{"ok":true}"#));
    assert!(!healthy_reply(true, "opencode-sessionbar"));
}

#[test]
fn sse_lines() {
    assert_eq!(sse_payload("data: {\"a\":1}"), Some("{\"a\":1}".to_string()));
    assert_eq!(sse_payload("data:{}"), Some("{}".to_string()));
    assert_eq!(sse_payload("data:   \t{}"), Some("{}".to_string()));
    assert_eq!(sse_payload("data: "), None);
    assert_eq!(sse_payload("data:"), None);
    assert_eq!(sse_payload("event: snapshot"), None);
    assert_eq!(sse_payload(": ping"), None);
    assert_eq!(sse_payload(""), None);
}

// ---- installer ----

#[test]
fn plugin_commands() {
    let r = cmd(&args(&[])).unwrap();
    assert_eq!(r.action, PluginAction::Status);
    assert!(matches!(r.target, InstallTarget::Global));
    let r = cmd(&args(&["install", "--project", "/tmp/p"])).unwrap();
    assert_eq!(r.action, PluginAction::Install);
    assert!(matches!(r.target, InstallTarget::Project(ref d) if d == "/tmp/p"));
    let r = cmd(&args(&["remove", "-g", "--project"])).unwrap();
    assert_eq!(r.action, PluginAction::Uninstall);
    assert!(matches!(r.target, InstallTarget::Global));
    assert_eq!(cmd(&args(&["update"])).unwrap().action, PluginAction::Update);
    assert_eq!(cmd(&args(&["uninstall"])).unwrap().action, PluginAction::Uninstall);
    assert_eq!(cmd(&args(&["install", "--project"])).err().unwrap(), "--project requires a directory");
    assert_eq!(
        cmd(&args(&["zap"])).err().unwrap(),
        "unknown: plugin zap\nUSAGE: opensessions plugin <install|update|uninstall|status> [--global|--project DIR]"
    );
}

#[test]
fn jsonc_detection() {
    assert!(!looks_like_jsonc("{\"plugin\": [\"./plugins/x\"]}"));
    assert!(looks_like_jsonc("{ // comment\n}"));
    assert!(looks_like_jsonc("{ /* c */ }"));
    assert!(!looks_like_jsonc("{\"url\": \"http://x/*y\"}"));
    assert!(!looks_like_jsonc("{\"a\": \"q\\\"//\"}"));
    assert!(looks_like_jsonc("{\"a\": \"q\\\\\"//\"}"));
    assert!(!looks_like_jsonc("/"));
    assert!(!looks_like_jsonc("{\"a\": 1/2}"));
}

#[test]
fn plugin_entries() {
    let ours = PluginEntry::Name(PLUGIN_SPEC.to_string());
    let bare = PluginEntry::Name("opencode-sessionbar".to_string());
    let tuple = PluginEntry::Tuple(Some(PLUGIN_SPEC.to_string()));
    let other = PluginEntry::Name("./plugins/other".to_string());
    assert!(is_sessionbar_entry(&ours));
    assert!(is_sessionbar_entry(&bare));
    assert!(is_sessionbar_entry(&tuple));
    assert!(!is_sessionbar_entry(&other));
    assert!(!is_sessionbar_entry(&PluginEntry::Tuple(None)));
    assert!(!is_sessionbar_entry(&PluginEntry::Other));
    assert!(plugin_present(&vec![PluginEntry::Other, tuple]));
    assert!(!plugin_present(&vec![other, PluginEntry::Other]));
    assert!(!plugin_present(&vec![]));
}

#[test]
fn register_decisions() {
    assert!(matches!(register_plan("// x\n{}"), RegisterOutcome::Commented));
    assert!(matches!(register_plan("  \n"), RegisterOutcome::Append));
    assert!(matches!(register_plan("{}\n"), RegisterOutcome::Append));
    match register_plan("{") {
        RegisterOutcome::Unparsable(m) => assert_eq!(m, serde_json::from_str::<serde_json::Value>("{").unwrap_err().to_string()),
        _ => panic!("expected a parse error"),
    }
    assert!(matches!(register_plan("[]"), RegisterOutcome::NotObject));
    assert!(matches!(register_plan("{\"plugin\": 1}"), RegisterOutcome::NotArray));
    assert!(matches!(register_plan("{\"plugin\": [\"./plugins/opencode-sessionbar\"]}"), RegisterOutcome::AlreadyRegistered));
    assert!(matches!(register_plan("{\"plugin\": [[\"opencode-sessionbar\", {\"port\": 1}]]}"), RegisterOutcome::AlreadyRegistered));
    assert!(matches!(register_plan("{\"plugin\": [\"./plugins/other\", 3]}"), RegisterOutcome::Append));
}

#[test]
fn unregister_decisions() {
    assert!(matches!(unregister_plan("/* */ {}"), UnregisterOutcome::Commented));
    assert!(matches!(unregister_plan("{"), UnregisterOutcome::Unparsable(_)));
    assert!(matches!(unregister_plan("   "), UnregisterOutcome::Unparsable(_)));
    assert!(matches!(unregister_plan("[]"), UnregisterOutcome::Unchanged));
    assert!(matches!(unregister_plan("{\"plugin\": 1}"), UnregisterOutcome::Unchanged));
    assert!(matches!(unregister_plan("{\"plugin\": [\"x\"]}"), UnregisterOutcome::Unchanged));
    match unregister_plan("{\"plugin\": [\"x\", \"./plugins/opencode-sessionbar\", [\"opencode-sessionbar\"], 7]}") {
        UnregisterOutcome::Remove(keep) => assert_eq!(keep, vec![true, false, false, true]),
        _ => panic!("expected a removal"),
    }
    let e = vec![PluginEntry::Other, PluginEntry::Name(PLUGIN_SPEC.to_string())];
    assert_eq!(keep_entries(&e), vec![true, false]);
    assert_eq!(retain_flagged(vec!["a", "b", "c", "d"], &vec![true, false, false, true]), vec!["a", "d"]);
    assert_eq!(retain_flagged(Vec::<u8>::new(), &vec![]), Vec::<u8>::new());
}

#[test]
fn status_registered() {
    assert!(registered("{\"plugin\": [\"./plugins/opencode-sessionbar\"]}"));
    assert!(registered("{\"plugin\": [[\"./plugins/opencode-sessionbar\", {}]]}"));
    assert!(!registered("{\"plugin\": [\"./plugins/other\"]}"));
    assert!(!registered("{}"));
    assert!(!registered("not json"));
    assert!(!registered("[\"./plugins/opencode-sessionbar\"]"));
}

#[test]
fn watch_steps() {
    let fmt = Format::Plain;
    let mut w = WatchState::new(glyph_anim(0));
    assert_eq!(w.step(fmt, WatchEvent::Tick), None);
    assert_eq!(w.step(fmt, WatchEvent::Snap(one_busy(None))).as_deref(), Some("⠋ Working\n● build it  Working…  (13m)"));
    assert_eq!(w.step(fmt, WatchEvent::Tick).as_deref(), Some("⠙ Working\n● build it  Working…  (13m)"));
    assert_eq!(w.anim.tick, 1);
    // A first drop keeps the snapshot; a second one blanks.
    assert_eq!(w.step(fmt, WatchEvent::Disconnected), None);
    assert!(w.last.is_some() && w.stale);
    assert_eq!(w.step(fmt, WatchEvent::Tick).as_deref(), Some("⠸ Working\n● build it  Working…  (13m)"));
    assert_eq!(w.step(fmt, WatchEvent::Disconnected).as_deref(), Some(""));
    assert!(w.last.is_none());
    assert_eq!(w.step(fmt, WatchEvent::Tick), None);
    assert_eq!(w.step(fmt, WatchEvent::Disconnected).as_deref(), Some(""));
    // Not busy, or not animating: ticks print nothing.
    let mut w = WatchState::new(glyph_anim(0));
    let idle = snap("idle", "Done", None, vec![entry("q", "done", "", "", None)]);
    assert_eq!(w.step(Format::I3blocks, WatchEvent::Snap(idle)).as_deref(), Some("Done\n1\n"));
    assert_eq!(w.step(Format::I3blocks, WatchEvent::Tick), None);
    let mut w = WatchState::new(Anim::default());
    w.step(fmt, WatchEvent::Snap(one_busy(None)));
    assert_eq!(w.step(fmt, WatchEvent::Tick), None);
}

#[test]
fn installed_lines() {
    assert_eq!(installed_line(false, None), "installed  : no");
    assert_eq!(installed_line(false, Some("0.0.1")), "installed  : no");
    assert_eq!(installed_line(true, None), "installed  : yes");
    assert_eq!(installed_line(true, Some(" 0.0.1\n")), "installed  : yes (v0.0.1, up to date)");
    assert_eq!(
        installed_line(true, Some("0.0.0\n")),
        "installed  : yes (v0.0.0, binary is v0.0.1 — run `plugin update`)"
    );
    assert_eq!(VERSION, "0.0.1");
}

// ---- popup ----

#[test]
fn popup_view() {
    let v = view(None, false);
    assert_eq!(v.headline, "Connecting…");
    assert_eq!(v.headline_paint, Paint::Gray);
    assert!(v.rows.is_empty());
    assert_eq!(v.footer[0].text, "○ reconnecting…");
    assert_eq!(v.footer[0].paint, Paint::Yellow);
    assert_eq!(v.footer[1].text, "   q/Esc quit");

    let empty = snap("busy", "x", None, vec![]);
    let v = view(Some(&empty), true);
    assert_eq!(v.headline, "No active sessions");
    assert_eq!(v.rows.len(), 1);
    assert_eq!(v.rows[0][0].text, "  (no active sessions)");
    assert_eq!(v.footer[0].text, "● live");
    assert_eq!(v.footer[0].paint, Paint::Green);

    let s = snap("permission", "", None, vec![entry("t", "waiting", "d", "5m", None)]);
    let v = view(Some(&s), true);
    assert_eq!(v.headline, "1 sessions");
    assert_eq!(v.headline_paint, Paint::WhiteBold);
    let texts: Vec<&str> = v.rows[0].iter().map(|p| p.text.as_str()).collect();
    assert_eq!(texts, vec!["★ ", "t", "  d  ", "(5m)"]);
    assert_eq!(v.rows[0][0].paint, Paint::WhiteBold);
    assert_eq!(v.rows[0][1].paint, Paint::Plain);
    assert_eq!(view(Some(&one_busy(None)), true).headline_paint, Paint::White);
}

#[test]
fn popup_keys_and_state() {
    assert!(is_quit(Key::Char('q'), false));
    assert!(is_quit(Key::Esc, false));
    assert!(is_quit(Key::Char('c'), true));
    assert!(!is_quit(Key::Char('c'), false));
    assert!(!is_quit(Key::Other, true));
    let mut st = TuiState::new();
    assert!(st.snapshot.is_none() && !st.connected);
    st.apply(Msg::Snap(one_busy(None)));
    assert!(st.connected);
    st.apply(Msg::Disconnected);
    assert!(!st.connected);
    assert_eq!(st.snapshot.as_ref().unwrap().summary.headline, "Working");
}

// ---- text ----

#[test]
fn text_helpers() {
    assert!(str_eq("ab", "ab"));
    assert!(!str_eq("ab", "abc"));
    assert_eq!(decimal_string(0), "0");
    assert_eq!(decimal_string(1234567890123), "1234567890123");
    assert_eq!(trimmed_start("\u{3000} x "), "x ");
    assert_eq!(trimmed(" \t x y \n"), "x y");
    assert_eq!(trimmed("   "), "");
    assert_eq!(join(&["a", "b", "c"], ", "), "a, b, c");
    assert_eq!(join(&[], ", "), "");
}
