use open_sessionbar::format::{bar_classes, bar_text, waybar};
use open_sessionbar::model::{SessionEntry, Snapshot, Summary};
use open_sessionbar::spinner::{Anim, AnimateMode, SpinnerStyle};

fn busy_snap(mode: Option<&str>) -> Snapshot {
    Snapshot {
        summary: Summary {
            total: 1,
            busy: 1,
            waiting: 0,
            idle: 0,
            headline: "Working".into(),
            headline_kind: "busy".into(),
            mode: mode.map(|m| m.into()),
        },
        sessions: vec![SessionEntry {
            id: "s1".into(),
            title: "do a thing".into(),
            status: "busy".into(),
            detail: "Working…".into(),
            updated: 0,
            age_label: "now".into(),
            mode: mode.map(|m| m.into()),
        }],
        at: 0,
    }
}

#[test]
fn classes_include_mode_when_busy() {
    let s = busy_snap(Some("build"));
    assert_eq!(bar_classes(&s, Anim::default()), "busy build");
    let s = busy_snap(Some("plan"));
    assert_eq!(bar_classes(&s, Anim::default()), "busy plan");
}

#[test]
fn classes_pulse_added_when_animating() {
    let s = busy_snap(Some("build"));
    let anim = Anim {
        mode: AnimateMode::Pulse,
        ..Anim::default()
    };
    assert_eq!(bar_classes(&s, anim), "busy build pulse");
}

#[test]
fn glyph_prefixes_text_when_busy() {
    let s = busy_snap(None);
    let anim = Anim {
        mode: AnimateMode::Glyph,
        spinner: SpinnerStyle::Braille,
        tick: 0,
    };
    let t = bar_text(&s, anim);
    let frame0 = SpinnerStyle::Braille.frame(0);
    assert!(t.starts_with(&format!("{frame0} ")), "got: {t}");
    assert!(t.ends_with("Working"));
}

#[test]
fn ring_frames_have_no_gap_at_top() {
    // The top edge (tick 3 = both inner-top columns) must render the
    // continuous-top comet, not the gapped 3-wide version.
    let comet_top = SpinnerStyle::RingComet.frame(3);
    assert_eq!(comet_top, "⠉⠉", "top edge should be continuous");
    // ring + ring-comet are 2 braille cells wide
    assert_eq!(SpinnerStyle::Ring.frame(0).chars().count(), 2);
    assert_eq!(SpinnerStyle::RingComet.frame(0).chars().count(), 2);
}

#[test]
fn glyph_frame_advances_with_tick() {
    let s = busy_snap(None);
    let a0 = Anim {
        mode: AnimateMode::Glyph,
        spinner: SpinnerStyle::Braille,
        tick: 0,
    };
    let a1 = Anim {
        mode: AnimateMode::Glyph,
        spinner: SpinnerStyle::Braille,
        tick: 1,
    };
    assert_ne!(bar_text(&s, a0), bar_text(&s, a1));
}

#[test]
fn no_glyph_when_not_busy() {
    let mut s = busy_snap(None);
    s.summary.headline_kind = "idle".into();
    s.summary.headline = "1 session".into();
    let anim = Anim {
        mode: AnimateMode::Glyph,
        spinner: SpinnerStyle::Shimmer,
        tick: 3,
    };
    assert_eq!(bar_text(&s, anim), "1 session");
}

#[test]
fn waybar_emits_mode_class_and_color_path() {
    let s = busy_snap(Some("plan"));
    let out = waybar::render(Some(&s), Anim::default());
    let v: serde_json::Value = serde_json::from_str(&out).unwrap();
    assert_eq!(v["class"], "busy plan");
    assert_eq!(v["text"], "Working");
}
