//! Status-bar formatters. Each turns a snapshot into the text that one bar
//! expects. Desktop-environment-agnostic: pick one with `bar --format <name>`.

use vstd::prelude::*;
use vstd::string::*;

use crate::model::{status_glyph, SessionEntry, Snapshot};
use crate::spinner::{spec_anim_glyph, str_views, Anim, AnimateMode};
use crate::text::decimal;

pub mod eww;
pub mod i3blocks;
pub mod json;
pub mod plain;
pub mod polybar;
pub mod tmux;
pub mod waybar;

verus! {

/// The output formats, one per kind of status bar.
#[derive(Debug, Clone, Copy, PartialEq, Eq, Structural)]
pub enum Format {
    Waybar,
    I3blocks,
    Polybar,
    Eww,
    Tmux,
    Plain,
    Json,
}

/// The format named by a command-line value, if any.
pub open spec fn spec_parse_format(s: Seq<char>) -> Option<Format> {
    if s == "waybar"@ {
        Some(Format::Waybar)
    } else if s == "i3blocks"@ {
        Some(Format::I3blocks)
    } else if s == "polybar"@ {
        Some(Format::Polybar)
    } else if s == "eww"@ {
        Some(Format::Eww)
    } else if s == "tmux"@ {
        Some(Format::Tmux)
    } else if s == "plain"@ {
        Some(Format::Plain)
    } else if s == "json"@ {
        Some(Format::Json)
    } else {
        None
    }
}

/// The names of all formats, in the order the help text lists them.
pub open spec fn format_names() -> Seq<Seq<char>> {
    seq!["waybar"@, "i3blocks"@, "polybar"@, "eww"@, "tmux"@, "plain"@, "json"@]
}

impl Format {
    /// The format with the given name.
    pub fn parse(s: &str) -> (r: Option<Format>)
        ensures
            r == spec_parse_format(s@),
    {
        if crate::text::str_eq(s, "waybar") {
            Some(Format::Waybar)
        } else if crate::text::str_eq(s, "i3blocks") {
            Some(Format::I3blocks)
        } else if crate::text::str_eq(s, "polybar") {
            Some(Format::Polybar)
        } else if crate::text::str_eq(s, "eww") {
            Some(Format::Eww)
        } else if crate::text::str_eq(s, "tmux") {
            Some(Format::Tmux)
        } else if crate::text::str_eq(s, "plain") {
            Some(Format::Plain)
        } else if crate::text::str_eq(s, "json") {
            Some(Format::Json)
        } else {
            None
        }
    }

    /// The names that `parse` accepts.
    pub fn all() -> (r: &'static [&'static str])
        ensures
            str_views(r@) == format_names(),
    {
        let r: &'static [&'static str] = &["waybar", "i3blocks", "polybar", "eww", "tmux", "plain", "json"];
        assert(str_views(r@) =~= format_names());
        r
    }
}

/// The text that `render` produces for each format.
pub open spec fn spec_render(fmt: Format, snap: Option<&Snapshot>, anim: Anim) -> Seq<char> {
    match fmt {
        Format::Waybar => waybar::spec_render(snap, anim),
        Format::I3blocks => i3blocks::spec_render(snap, anim),
        Format::Polybar => polybar::spec_render(snap, anim),
        Format::Eww => eww::spec_render(snap, anim),
        Format::Tmux => tmux::spec_render(snap, anim),
        Format::Plain => plain::spec_render(snap, anim),
        Format::Json => json::spec_render(snap),
    }
}

/// Render a snapshot for the given bar format. `None` means the plugin is
/// unreachable; the formatters then render an empty or hidden module. `anim`
/// carries the animation settings, applied only while busy.
pub fn render(fmt: Format, snap: Option<&Snapshot>, anim: Anim) -> (r: String)
    ensures
        r@ == spec_render(fmt, snap, anim),
{
    match fmt {
        Format::Waybar => waybar::render(snap, anim),
        Format::I3blocks => i3blocks::render(snap, anim),
        Format::Polybar => polybar::render(snap, anim),
        Format::Eww => eww::render(snap, anim),
        Format::Tmux => tmux::render(snap, anim),
        Format::Plain => plain::render(snap, anim),
        Format::Json => json::render(snap),
    }
}

/// Whether a snapshot has something to show: it exists and lists a session.
pub open spec fn shown(snap: Option<&Snapshot>) -> bool {
    snap matches Some(s) && s.sessions@.len() > 0
}

/// The headline is the "working" state.
pub open spec fn spec_is_busy(snap: &Snapshot) -> bool {
    snap.summary.headline_kind@ == "busy"@
}

/// The headline kind is one of the two waiting kinds.
pub open spec fn is_waiting_kind(kind: Seq<char>) -> bool {
    kind == "permission"@ || kind == "question"@
}

/// True when the snapshot's headline is the "working" state.
pub fn is_busy(snap: &Snapshot) -> (r: bool)
    ensures
        r == spec_is_busy(snap),
{
    crate::text::str_eq(snap.summary.headline_kind.as_str(), "busy")
}

/// `is_busy`, for the watch loop.
pub fn is_busy_opt(snap: &Snapshot) -> (r: bool)
    ensures
        r == spec_is_busy(snap),
{
    is_busy(snap)
}

/// Whether the headline kind is `permission` or `question`.
pub fn waiting_kind(kind: &str) -> (r: bool)
    ensures
        r == is_waiting_kind(kind@),
{
    crate::text::str_eq(kind, "permission") || crate::text::str_eq(kind, "question")
}

/// "1 session" or "<n> sessions".
pub open spec fn sessions_label(n: nat) -> Seq<char> {
    if n == 1 {
        "1 session"@
    } else {
        decimal(n) + " sessions"@
    }
}

/// The bar text without a spinner: the headline, or a session count when
/// the headline is empty.
pub open spec fn bar_base(snap: &Snapshot) -> Seq<char> {
    if snap.summary.headline@.len() > 0 {
        snap.summary.headline@
    } else {
        sessions_label(snap.sessions@.len())
    }
}

/// The bar text: empty without sessions; otherwise the base text, with the
/// spinner frame and a space in front while busy under the glyph animation.
pub open spec fn spec_bar_text(snap: &Snapshot, anim: Anim) -> Seq<char> {
    if snap.sessions@.len() == 0 {
        Seq::empty()
    } else if spec_is_busy(snap) && spec_anim_glyph(anim) is Some {
        spec_anim_glyph(anim)->0 + " "@ + bar_base(snap)
    } else {
        bar_base(snap)
    }
}

/// Text shown on the bar: the headline (with the spinner glyph prefix when
/// busy), or a compact count, or empty.
pub fn bar_text(snap: &Snapshot, anim: Anim) -> (r: String)
    ensures
        r@ == spec_bar_text(snap, anim),
{
    if snap.is_empty() {
        return String::new();
    }
    let base = if snap.summary.headline.as_str().unicode_len() > 0 {
        snap.summary.headline.clone()
    } else {
        let n = snap.sessions.len();
        if n == 1 {
            String::from_str("1 session")
        } else {
            let mut s = crate::text::decimal_string(n as u64);
            s.append(" sessions");
            s
        }
    };
    if is_busy(snap) {
        match anim.glyph() {
            Some(g) => {
                let mut out = String::from_str(g);
                out.append(" ");
                out.append(base.as_str());
                return out;
            },
            None => {},
        }
    }
    base
}

/// The characters a CSS class name may hold: ASCII letters and digits,
/// `-` and `_`.
pub open spec fn is_class_char(c: char) -> bool {
    ||| ('a' <= c && c <= 'z')
    ||| ('A' <= c && c <= 'Z')
    ||| ('0' <= c && c <= '9')
    ||| c == '-'
    ||| c == '_'
}

/// A CSS class name made from any text: every other character becomes `-`.
pub open spec fn spec_sanitize_class(s: Seq<char>) -> Seq<char> {
    s.map_values(|c: char| if is_class_char(c) { c } else { '-' })
}

/// The agent mode as an extra class (with its separating space), when the
/// mode is known and not empty.
pub open spec fn mode_class(mode: Option<String>) -> Seq<char> {
    match mode {
        Some(m) => if m@.len() > 0 { " "@ + spec_sanitize_class(m@) } else { Seq::empty() },
        None => Seq::empty(),
    }
}

/// Space-separated classes: the headline kind; while busy also the agent
/// mode and, under the pulse animation, `pulse`.
pub open spec fn spec_bar_classes(snap: &Snapshot, anim: Anim) -> Seq<char> {
    if spec_is_busy(snap) {
        snap.summary.headline_kind@ + mode_class(snap.summary.mode) + if anim.mode
            == AnimateMode::Pulse {
            " pulse"@
        } else {
            Seq::empty()
        }
    } else {
        snap.summary.headline_kind@
    }
}

/// Space-separated CSS classes for the module: the headline kind, plus the
/// agent mode (build/plan/…) when busy, plus `pulse` when pulse-animating.
pub fn bar_classes(snap: &Snapshot, anim: Anim) -> (r: String)
    ensures
        r@ == spec_bar_classes(snap, anim),
{
    let mut out = snap.summary.headline_kind.clone();
    if is_busy(snap) {
        match &snap.summary.mode {
            Some(m) => {
                if m.as_str().unicode_len() > 0 {
                    out.append(" ");
                    let c = sanitize_class(m.as_str());
                    out.append(c.as_str());
                }
            },
            None => {},
        }
        if anim.pulse() {
            out.append(" pulse");
        }
    }
    out
}

/// OpenCode agent colors (dark theme): build `#034cff`, plan `#a753ae`;
/// none for an unknown or custom agent.
pub open spec fn spec_mode_hex(mode: Option<Seq<char>>) -> Option<Seq<char>> {
    match mode {
        Some(m) => if m == "build"@ {
            Some("#034cff"@)
        } else if m == "plan"@ {
            Some("#a753ae"@)
        } else {
            None
        },
        None => None,
    }
}

/// The view of an optional string.
pub open spec fn opt_view(o: Option<String>) -> Option<Seq<char>> {
    match o {
        Some(s) => Some(s@),
        None => None,
    }
}

/// The view of an optional string slice.
pub open spec fn opt_str_view(o: Option<&str>) -> Option<Seq<char>> {
    match o {
        Some(s) => Some(s@),
        None => None,
    }
}

/// Borrows the text of an optional string.
pub fn opt_as_str(o: &Option<String>) -> (r: Option<&str>)
    ensures
        opt_str_view(r) == opt_view(*o),
{
    match o {
        Some(s) => Some(s.as_str()),
        None => None,
    }
}

/// OpenCode agent colors (dark theme): build `#034cff`, plan `#a753ae`.
/// Shared by the formatters that emit a hex color (i3blocks, polybar, eww,
/// tmux). Returns `None` for an unknown or custom agent so consumers fall
/// back to their default foreground.
pub fn mode_hex(mode: Option<&str>) -> (r: Option<&'static str>)
    ensures
        opt_str_view(r) == spec_mode_hex(opt_str_view(mode)),
{
    match mode {
        Some(m) => {
            if crate::text::str_eq(m, "build") {
                Some("#034cff")
            } else if crate::text::str_eq(m, "plan") {
                Some("#a753ae")
            } else {
                None
            }
        },
        None => None,
    }
}

fn class_char(c: char) -> (r: bool)
    ensures
        r == is_class_char(c),
{
    ('a' <= c && c <= 'z') || ('A' <= c && c <= 'Z') || ('0' <= c && c <= '9') || c == '-' || c
        == '_'
}

/// CSS class names allow [A-Za-z0-9_-]; anything else maps to '-'.
pub fn sanitize_class(s: &str) -> (r: String)
    ensures
        r@ == spec_sanitize_class(s@),
{
    let n = s.unicode_len();
    let mut out = String::new();
    let mut i: usize = 0;
    while i < n
        invariant
            n == s@.len(),
            i <= n,
            out@ == spec_sanitize_class(s@.take(i as int)),
        decreases n - i,
    {
        let c = s.get_char(i);
        let d = if class_char(c) { c } else { '-' };
        crate::text::push_char(&mut out, d);
        assert(spec_sanitize_class(s@.take(i + 1)) =~= spec_sanitize_class(s@.take(i as int)).push(d));
        i = i + 1;
    }
    assert(s@.take(n as int) =~= s@);
    out
}

/// The agent tag of a tooltip line: ` [mode]` when the mode is known and
/// not empty.
pub open spec fn mode_tag(mode: Option<String>) -> Seq<char> {
    match mode {
        Some(m) => if m@.len() > 0 { " ["@ + m@ + "]"@ } else { Seq::empty() },
        None => Seq::empty(),
    }
}

/// One tooltip line: glyph, title, agent tag, detail and age.
pub open spec fn spec_tooltip_line(e: SessionEntry) -> Seq<char> {
    status_glyph(e.status@) + " "@ + e.title@ + mode_tag(e.mode) + "  "@ + e.detail@ + "  ("@
        + e.age_label@ + ")"@
}

fn tooltip_line(e: &SessionEntry) -> (r: String)
    ensures
        r@ == spec_tooltip_line(*e),
{
    let mut out = String::from_str(e.glyph());
    out.append(" ");
    out.append(e.title.as_str());
    match &e.mode {
        Some(m) => {
            if m.as_str().unicode_len() > 0 {
                out.append(" [");
                out.append(m.as_str());
                out.append("]");
            }
        },
        None => {},
    }
    out.append("  ");
    out.append(e.detail.as_str());
    out.append("  (");
    out.append(e.age_label.as_str());
    out.append(")");
    out
}

/// Multi-line tooltip body listing every session (plain text; bar-specific
/// markup is applied by the caller).
pub fn tooltip_lines(snap: &Snapshot) -> (r: Vec<String>)
    ensures
        r@.len() == snap.sessions@.len(),
        forall|i: int| 0 <= i < r@.len() ==> #[trigger] r@[i]@ == spec_tooltip_line(snap.sessions@[i]),
{
    let n = snap.sessions.len();
    let mut out: Vec<String> = Vec::new();
    let mut i: usize = 0;
    while i < n
        invariant
            n == snap.sessions@.len(),
            i <= n,
            out@.len() == i,
            forall|j: int| 0 <= j < i ==> #[trigger] out@[j]@ == spec_tooltip_line(snap.sessions@[j]),
        decreases n - i,
    {
        out.push(tooltip_line(&snap.sessions[i]));
        i = i + 1;
    }
    out
}


/// The animation settings only matter while busy: for a snapshot whose
/// headline is not the working state, every format renders the same text
/// whatever the settings.
pub proof fn lemma_anim_only_while_busy(fmt: Format, snap: &Snapshot, a1: Anim, a2: Anim)
    requires
        !spec_is_busy(snap),
    ensures
        spec_render(fmt, Some(snap), a1) == spec_render(fmt, Some(snap), a2),
{
    assert(spec_bar_text(snap, a1) == spec_bar_text(snap, a2));
    assert(spec_bar_classes(snap, a1) == spec_bar_classes(snap, a2));
}

/// An unreachable plugin renders exactly like a snapshot without sessions
/// (an empty or hidden module), in every format but `json`, which writes
/// an explicit empty snapshot instead.
pub proof fn lemma_unreachable_renders_empty(fmt: Format, snap: &Snapshot, anim: Anim)
    requires
        fmt != Format::Json,
        snap.sessions@.len() == 0,
    ensures
        spec_render(fmt, None, anim) == spec_render(fmt, Some(snap), anim),
{
}

proof fn lemma_names_distinct()
    ensures
        forall|i: int, j: int|
            0 <= i < format_names().len() && 0 <= j < format_names().len() && i != j
                ==> #[trigger] format_names()[i] != #[trigger] format_names()[j],
{
    reveal_strlit("waybar");
    reveal_strlit("i3blocks");
    reveal_strlit("polybar");
    reveal_strlit("eww");
    reveal_strlit("tmux");
    reveal_strlit("plain");
    reveal_strlit("json");
    let n = format_names();
    assert(n[0][0] != n[1][0] && n[0][0] != n[2][0] && n[0].len() != n[3].len());
    assert(n[0].len() != n[4].len() && n[0][0] != n[5][0] && n[0].len() != n[6].len());
    assert(n[1].len() != n[2].len() && n[1].len() != n[3].len() && n[1].len() != n[4].len());
    assert(n[1].len() != n[5].len() && n[1].len() != n[6].len());
    assert(n[2].len() != n[3].len() && n[2].len() != n[4].len() && n[2].len() != n[5].len());
    assert(n[2].len() != n[6].len());
    assert(n[3].len() != n[4].len() && n[3].len() != n[5].len() && n[3].len() != n[6].len());
    assert(n[4].len() != n[5].len() && n[4][0] != n[6][0]);
    assert(n[5].len() != n[6].len());
}

/// The format each listed name selects, in the order of `Format::all`.
pub open spec fn format_at(i: int) -> Format {
    if i == 0 {
        Format::Waybar
    } else if i == 1 {
        Format::I3blocks
    } else if i == 2 {
        Format::Polybar
    } else if i == 3 {
        Format::Eww
    } else if i == 4 {
        Format::Tmux
    } else if i == 5 {
        Format::Plain
    } else {
        Format::Json
    }
}

/// Every name that `Format::all` lists parses back, and to a different
/// format for each name; every format has such a name.
pub proof fn lemma_format_names_parse(i: int, f: Format)
    requires
        0 <= i < format_names().len(),
    ensures
        spec_parse_format(format_names()[i]) == Some(format_at(i)),
        forall|j: int| 0 <= j < format_names().len() && j != i ==> format_at(j) != format_at(i),
        exists|k: int| 0 <= k < format_names().len() && #[trigger] format_at(k) == f,
{
    lemma_names_distinct();
    let n = format_names();
    assert(n[0] != n[1] && n[0] != n[2] && n[0] != n[3] && n[0] != n[4] && n[0] != n[5] && n[0] != n[6]);
    assert(n[1] != n[2] && n[1] != n[3] && n[1] != n[4] && n[1] != n[5] && n[1] != n[6]);
    assert(n[2] != n[3] && n[2] != n[4] && n[2] != n[5] && n[2] != n[6]);
    assert(n[3] != n[4] && n[3] != n[5] && n[3] != n[6]);
    assert(n[4] != n[5] && n[4] != n[6]);
    assert(n[5] != n[6]);
    match f {
        Format::Waybar => assert(format_at(0) == f),
        Format::I3blocks => assert(format_at(1) == f),
        Format::Polybar => assert(format_at(2) == f),
        Format::Eww => assert(format_at(3) == f),
        Format::Tmux => assert(format_at(4) == f),
        Format::Plain => assert(format_at(5) == f),
        Format::Json => assert(format_at(6) == f),
    }
}

/// A sanitized class name has the length of its source, consists of
/// class-name characters only, and keeps every character that already was
/// one.
pub proof fn lemma_sanitized_class(s: Seq<char>)
    ensures
        spec_sanitize_class(s).len() == s.len(),
        forall|i: int| 0 <= i < s.len() ==> is_class_char(#[trigger] spec_sanitize_class(s)[i]),
        forall|i: int| 0 <= i < s.len() && is_class_char(s[i]) ==> #[trigger] spec_sanitize_class(s)[i] == s[i],
{
}


/// Under the glyph animation the busy bar text changes at every tick: the
/// spinner frame in front of it moves on.
pub proof fn lemma_busy_text_moves(snap: &Snapshot, anim: Anim)
    requires
        snap.sessions@.len() > 0,
        spec_is_busy(snap),
        anim.mode == AnimateMode::Glyph,
        anim.tick < usize::MAX,
    ensures
        spec_bar_text(snap, anim) != spec_bar_text(snap, Anim { tick: (anim.tick + 1) as usize, ..anim }),
{
    let next = Anim { tick: (anim.tick + 1) as usize, ..anim };
    crate::spinner::lemma_frame_advances(anim.spinner, anim.tick as nat);
    let a = spec_anim_glyph(anim)->0;
    let b = spec_anim_glyph(next)->0;
    assert(a != b);
    let rest = " "@ + bar_base(snap);
    let x = spec_bar_text(snap, anim);
    let y = spec_bar_text(snap, next);
    assert(x == a + rest);
    assert(y == b + rest);
    if x == y {
        if a.len() == b.len() {
            assert forall|i: int| 0 <= i < a.len() implies a[i] == b[i] by {
                assert(x[i] == a[i]);
                assert(y[i] == b[i]);
            }
            assert(a =~= b);
        } else {
            assert(x.len() != y.len());
        }
    }
}


/// The headline kinds and agent names that the formats tell apart are
/// different texts.
pub proof fn lemma_kind_names_distinct()
    ensures
        "busy"@ != "permission"@,
        "busy"@ != "question"@,
        "permission"@ != "question"@,
        "build"@ != "plan"@,
{
    reveal_strlit("busy");
    reveal_strlit("permission");
    reveal_strlit("question");
    reveal_strlit("build");
    reveal_strlit("plan");
    assert("busy"@.len() != "permission"@.len());
    assert("busy"@.len() != "question"@.len());
    assert("permission"@.len() != "question"@.len());
    assert("build"@.len() != "plan"@.len());
}

/// What the bar shows: nothing without sessions; otherwise the headline
/// when there is one, else "1 session" or "<n> sessions"; while busy under
/// the glyph animation, the current spinner frame and a space come first.
pub proof fn lemma_bar_text_shows_headline(snap: &Snapshot, anim: Anim)
    ensures
        ({
            let n = snap.sessions@.len();
            let h = snap.summary.headline@;
            let base = if h.len() > 0 {
                h
            } else if n == 1 {
                "1 session"@
            } else {
                decimal(n) + " sessions"@
            };
            let spin = snap.summary.headline_kind@ == "busy"@ && anim.mode == AnimateMode::Glyph;
            &&& n == 0 ==> spec_bar_text(snap, anim) == Seq::<char>::empty()
            &&& (n > 0 && !spin) ==> spec_bar_text(snap, anim) == base
            &&& (n > 0 && spin) ==> spec_bar_text(snap, anim) == crate::spinner::spec_frame(
                anim.spinner,
                anim.tick as nat,
            ) + " "@ + base
        }),
{
}

/// The bar classes: the headline kind alone unless busy; while busy also
/// the cleaned agent name when one is known and, under the pulse
/// animation, `pulse`, each after a space.
pub proof fn lemma_bar_classes_by_kind(snap: &Snapshot, anim: Anim)
    ensures
        snap.summary.headline_kind@ != "busy"@ ==> spec_bar_classes(snap, anim) == snap.summary.headline_kind@,
        ({
            let agent = match snap.summary.mode {
                Some(m) => if m@.len() > 0 { " "@ + spec_sanitize_class(m@) } else { Seq::<char>::empty() },
                None => Seq::<char>::empty(),
            };
            let pulse = if anim.mode == AnimateMode::Pulse { " pulse"@ } else { Seq::<char>::empty() };
            snap.summary.headline_kind@ == "busy"@ ==> spec_bar_classes(snap, anim)
                == snap.summary.headline_kind@ + agent + pulse
        }),
{
}

/// The agent colors: build is `#034cff`, plan is `#a753ae`, and no other
/// agent (nor an unknown one) has a color.
pub proof fn lemma_mode_colors(m: Seq<char>)
    ensures
        spec_mode_hex(Some("build"@)) == Some("#034cff"@),
        spec_mode_hex(Some("plan"@)) == Some("#a753ae"@),
        spec_mode_hex(None) == None::<Seq<char>>,
        (m != "build"@ && m != "plan"@) ==> spec_mode_hex(Some(m)) == None::<Seq<char>>,
{
    lemma_kind_names_distinct();
}

} // verus!
