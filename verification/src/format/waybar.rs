//! Waybar custom-module JSON: `{"class","text","tooltip"}` (serde_json
//! orders object keys alphabetically). The tooltip is Pango markup.

use vstd::prelude::*;
use vstd::string::*;

use crate::json_text::json_quoted;
use crate::model::{status_glyph, SessionEntry, Snapshot};
use crate::spinner::Anim;
use crate::text::decimal;
use super::{shown, spec_bar_classes, spec_bar_text};

verus! {

/// One character with the five XML/Pango entities escaped.
pub open spec fn pango_char(c: char) -> Seq<char> {
    if c == '&' {
        "&amp;"@
    } else if c == '<' {
        "&lt;"@
    } else if c == '>' {
        "&gt;"@
    } else if c == '\'' {
        "&apos;"@
    } else if c == '"' {
        "&quot;"@
    } else {
        seq![c]
    }
}

/// The text with `&`, `<`, `>`, `'` and `"` written as entities.
pub open spec fn spec_pango_escape(s: Seq<char>) -> Seq<char>
    decreases s.len(),
{
    if s.len() == 0 {
        Seq::empty()
    } else {
        spec_pango_escape(s.drop_last()) + pango_char(s.last())
    }
}

/// The Pango agent tag of a tooltip row, when the agent is known.
pub open spec fn pango_mode_tag(mode: Option<String>) -> Seq<char> {
    match mode {
        Some(m) => if m@.len() > 0 { " ["@ + spec_pango_escape(m@) + "]"@ } else { Seq::empty() },
        None => Seq::empty(),
    }
}

/// One tooltip row: glyph, title, agent tag, italic detail and age.
pub open spec fn tooltip_row(e: SessionEntry) -> Seq<char> {
    status_glyph(e.status@) + " "@ + spec_pango_escape(e.title@) + pango_mode_tag(e.mode)
        + "  <i>"@ + spec_pango_escape(e.detail@) + "</i>  ("@ + spec_pango_escape(e.age_label@)
        + ")"@
}

/// The tooltip rows, each after a line break.
pub open spec fn tooltip_rows(sessions: Seq<SessionEntry>) -> Seq<char>
    decreases sessions.len(),
{
    if sessions.len() == 0 {
        Seq::empty()
    } else {
        tooltip_rows(sessions.drop_last()) + "\n"@ + tooltip_row(sessions.last())
    }
}

/// The tooltip: a bold title with the session total, the waiting count
/// when some are waiting, then one row per session.
pub open spec fn tooltip(snap: &Snapshot) -> Seq<char> {
    "<b>SessionBar</b>  "@ + decimal(snap.summary.total as nat) + " sessions"@ + (if snap.summary.waiting
        > 0 {
        "  ·  "@ + decimal(snap.summary.waiting as nat) + " waiting"@
    } else {
        Seq::empty()
    }) + tooltip_rows(snap.sessions@)
}

/// The module object: `{"class":…,"text":…,"tooltip":…}`.
pub open spec fn json_line(text: Seq<char>, tooltip: Seq<char>, class: Seq<char>) -> Seq<char> {
    "{\"class\":"@ + json_quoted(class) + ",\"text\":"@ + json_quoted(text) + ",\"tooltip\":"@
        + json_quoted(tooltip) + "}"@
}

/// An empty module with class `empty` when nothing is shown; otherwise the
/// bar text, the tooltip and the bar classes.
pub open spec fn spec_render(snap: Option<&Snapshot>, anim: Anim) -> Seq<char> {
    if shown(snap) {
        let s = snap->0;
        json_line(spec_bar_text(s, anim), tooltip(s), spec_bar_classes(s, anim))
    } else {
        json_line(Seq::empty(), Seq::empty(), "empty"@)
    }
}

/// The waybar JSON line.
pub fn render(snap: Option<&Snapshot>, anim: Anim) -> (r: String)
    ensures
        r@ == spec_render(snap, anim),
{
    proof {
        reveal_strlit("");
    }
    let snap = match snap {
        Some(s) => {
            if s.is_empty() {
                return json_line_text("", "", "empty");
            }
            s
        },
        None => return json_line_text("", "", "empty"),
    };
    let text = super::bar_text(snap, anim);
    let class = super::bar_classes(snap, anim);
    let tip = tooltip_text(snap);
    json_line_text(text.as_str(), tip.as_str(), class.as_str())
}

fn tooltip_text(snap: &Snapshot) -> (r: String)
    ensures
        r@ == tooltip(snap),
{
    let mut tip = String::from_str("<b>SessionBar</b>  ");
    let t = crate::text::decimal_string(snap.summary.total as u64);
    tip.append(t.as_str());
    tip.append(" sessions");
    if snap.summary.waiting > 0 {
        tip.append("  ·  ");
        let w = crate::text::decimal_string(snap.summary.waiting as u64);
        tip.append(w.as_str());
        tip.append(" waiting");
    }
    let ghost head = tip@;
    let n = snap.sessions.len();
    let mut i: usize = 0;
    while i < n
        invariant
            n == snap.sessions@.len(),
            i <= n,
            tip@ == head + tooltip_rows(snap.sessions@.take(i as int)),
        decreases n - i,
    {
        tip.append("\n");
        let row = tooltip_row_text(&snap.sessions[i]);
        tip.append(row.as_str());
        assert(snap.sessions@.take(i + 1).drop_last() =~= snap.sessions@.take(i as int));
        i = i + 1;
    }
    assert(snap.sessions@.take(n as int) =~= snap.sessions@);
    tip
}

fn tooltip_row_text(e: &SessionEntry) -> (r: String)
    ensures
        r@ == tooltip_row(*e),
{
    let mut out = String::from_str(e.glyph());
    out.append(" ");
    let title = pango_escape(e.title.as_str());
    out.append(title.as_str());
    match &e.mode {
        Some(m) => {
            if m.as_str().unicode_len() > 0 {
                out.append(" [");
                let mm = pango_escape(m.as_str());
                out.append(mm.as_str());
                out.append("]");
            }
        },
        None => {},
    }
    out.append("  <i>");
    let detail = pango_escape(e.detail.as_str());
    out.append(detail.as_str());
    out.append("</i>  (");
    let age = pango_escape(e.age_label.as_str());
    out.append(age.as_str());
    out.append(")");
    out
}

fn json_line_text(text: &str, tooltip: &str, class: &str) -> (r: String)
    ensures
        r@ == json_line(text@, tooltip@, class@),
{
    let mut out = String::from_str("{\"class\":");
    let c = crate::json_text::json_string(class);
    out.append(c.as_str());
    out.append(",\"text\":");
    let t = crate::json_text::json_string(text);
    out.append(t.as_str());
    out.append(",\"tooltip\":");
    let p = crate::json_text::json_string(tooltip);
    out.append(p.as_str());
    out.append("}");
    out
}

/// Escapes the five XML/Pango entities so titles with `&` or `<` do not
/// break the markup.
pub fn pango_escape(s: &str) -> (r: String)
    ensures
        r@ == spec_pango_escape(s@),
{
    let n = s.unicode_len();
    let mut out = String::new();
    let mut i: usize = 0;
    while i < n
        invariant
            n == s@.len(),
            i <= n,
            out@ == spec_pango_escape(s@.take(i as int)),
        decreases n - i,
    {
        let c = s.get_char(i);
        if c == '&' {
            out.append("&amp;");
        } else if c == '<' {
            out.append("&lt;");
        } else if c == '>' {
            out.append("&gt;");
        } else if c == '\'' {
            out.append("&apos;");
        } else if c == '"' {
            out.append("&quot;");
        } else {
            crate::text::push_char(&mut out, c);
        }
        assert(s@.take(i + 1).drop_last() =~= s@.take(i as int));
        assert(out@ =~= spec_pango_escape(s@.take(i + 1)));
        i = i + 1;
    }
    assert(s@.take(n as int) =~= s@);
    out
}


/// No character that Pango reads as markup: `<`, `>` or a quote.
pub open spec fn markup_free(t: Seq<char>) -> bool {
    forall|i: int| 0 <= i < t.len() ==> {
        let c = #[trigger] t[i];
        c != '<' && c != '>' && c != '"' && c != '\''
    }
}

/// Escaped text holds no `<`, `>` or quote, so a session title cannot open
/// or close a tag of the tooltip markup.
pub proof fn lemma_pango_escape_markup_free(s: Seq<char>)
    ensures
        markup_free(spec_pango_escape(s)),
    decreases s.len(),
{
    reveal_strlit("&amp;");
    reveal_strlit("&lt;");
    reveal_strlit("&gt;");
    reveal_strlit("&apos;");
    reveal_strlit("&quot;");
    if s.len() > 0 {
        lemma_pango_escape_markup_free(s.drop_last());
        let a = spec_pango_escape(s.drop_last());
        let b = pango_char(s.last());
        assert(markup_free(b));
        let r = spec_pango_escape(s);
        assert(r == a + b);
        assert forall|i: int| 0 <= i < r.len() implies {
            let c = #[trigger] r[i];
            c != '<' && c != '>' && c != '"' && c != '\''
        } by {
            if i < a.len() {
                assert(r[i] == a[i]);
            } else {
                assert(r[i] == b[i - a.len()]);
            }
        }
    }
}


/// The waybar line for a snapshot with sessions: the bar classes, the bar
/// text, and a tooltip that starts with the session total, followed by
/// the waiting count whenever at least one session waits, then one row per
/// session. Without sessions: the empty module.
pub proof fn lemma_waybar_tooltip_counts(snap: &Snapshot, anim: Anim)
    ensures
        snap.sessions@.len() == 0 ==> spec_render(Some(snap), anim) == "{\"class\":"@ + json_quoted(
            "empty"@,
        ) + ",\"text\":"@ + json_quoted(Seq::empty()) + ",\"tooltip\":"@ + json_quoted(Seq::empty())
            + "}"@,
        ({
            let head = "<b>SessionBar</b>  "@ + decimal(snap.summary.total as nat) + " sessions"@;
            let tip = if snap.summary.waiting >= 1 {
                head + ("  ·  "@ + decimal(snap.summary.waiting as nat) + " waiting"@)
                    + tooltip_rows(snap.sessions@)
            } else {
                head + Seq::<char>::empty() + tooltip_rows(snap.sessions@)
            };
            &&& tooltip(snap) == tip
            &&& snap.sessions@.len() > 0 ==> spec_render(Some(snap), anim) == "{\"class\":"@
                + json_quoted(spec_bar_classes(snap, anim)) + ",\"text\":"@ + json_quoted(
                spec_bar_text(snap, anim),
            ) + ",\"tooltip\":"@ + json_quoted(tip) + "}"@
        }),
{
}

/// The tooltip rows: one per session, in order, each after a line break.
pub proof fn lemma_tooltip_rows_append(sessions: Seq<SessionEntry>, e: SessionEntry)
    ensures
        tooltip_rows(Seq::empty()) == Seq::<char>::empty(),
        tooltip_rows(sessions.push(e)) == tooltip_rows(sessions) + "\n"@ + status_glyph(e.status@)
            + " "@ + spec_pango_escape(e.title@) + pango_mode_tag(e.mode) + "  <i>"@
            + spec_pango_escape(e.detail@) + "</i>  ("@ + spec_pango_escape(e.age_label@) + ")"@,
{
    assert(sessions.push(e).drop_last() =~= sessions);
}


/// Escaping works character by character (it distributes over
/// concatenation): `&`, `<`, `>`, `'` and `"` become `&amp;`, `&lt;`,
/// `&gt;`, `&apos;` and `&quot;`, and every other character stays.
pub proof fn lemma_pango_escape_entities(a: Seq<char>, b: Seq<char>, c: char)
    ensures
        spec_pango_escape(a + b) == spec_pango_escape(a) + spec_pango_escape(b),
        spec_pango_escape(Seq::empty()) == Seq::<char>::empty(),
        spec_pango_escape(seq!['&']) == "&amp;"@,
        spec_pango_escape(seq!['<']) == "&lt;"@,
        spec_pango_escape(seq!['>']) == "&gt;"@,
        spec_pango_escape(seq!['\'']) == "&apos;"@,
        spec_pango_escape(seq!['"']) == "&quot;"@,
        (c != '&' && c != '<' && c != '>' && c != '\'' && c != '"') ==> spec_pango_escape(seq![c])
            == seq![c],
    decreases b.len(),
{
    lemma_pango_one('&');
    lemma_pango_one('<');
    lemma_pango_one('>');
    lemma_pango_one('\'');
    lemma_pango_one('"');
    lemma_pango_one(c);
    if b.len() == 0 {
        assert(a + b =~= a);
        assert(spec_pango_escape(a) + spec_pango_escape(b) =~= spec_pango_escape(a));
    } else {
        lemma_pango_escape_entities(a, b.drop_last(), c);
        assert((a + b).drop_last() =~= a + b.drop_last());
        assert((a + b).last() == b.last());
    }
}

proof fn lemma_pango_one(c: char)
    ensures
        spec_pango_escape(seq![c]) == pango_char(c),
{
    assert(seq![c].drop_last() =~= Seq::<char>::empty());
    assert(seq![c].last() == c);
    assert(spec_pango_escape(Seq::<char>::empty()) =~= Seq::<char>::empty());
    assert(spec_pango_escape(seq![c]) == spec_pango_escape(seq![c].drop_last()) + pango_char(c));
    assert(Seq::<char>::empty() + pango_char(c) =~= pango_char(c));
}

} // verus!
