//! i3blocks: three lines — full_text, short_text, color (hex or empty).
//! i3blocks reads stdout line by line; a non-empty color signals attention.

use vstd::prelude::*;
use vstd::string::*;

use crate::model::Snapshot;
use crate::spinner::Anim;
use crate::text::{decimal, lemma_decimal_no_break, lemma_line_breaks_add, lemma_line_breaks_char, line_breaks};
use super::{is_waiting_kind, opt_view, shown, spec_bar_text, spec_mode_hex};

verus! {

/// The short text: the waiting count (at least 1) behind ⏳ while waiting,
/// ● while busy, the number of sessions otherwise.
pub open spec fn short_text(snap: &Snapshot) -> Seq<char> {
    let kind = snap.summary.headline_kind@;
    if is_waiting_kind(kind) {
        "⏳"@ + decimal(if snap.summary.waiting >= 1 { snap.summary.waiting as nat } else { 1 })
    } else if kind == "busy"@ {
        "●"@
    } else {
        decimal(snap.sessions@.len())
    }
}

/// The color line: the agent color while busy (empty for an unknown
/// agent), white while waiting, empty otherwise.
pub open spec fn color_text(snap: &Snapshot) -> Seq<char> {
    let kind = snap.summary.headline_kind@;
    if kind == "busy"@ {
        match spec_mode_hex(opt_view(snap.summary.mode)) {
            Some(h) => h,
            None => Seq::empty(),
        }
    } else if is_waiting_kind(kind) {
        "#ffffff"@
    } else {
        Seq::empty()
    }
}

/// Two line breaks (an empty block) when nothing is shown; otherwise the
/// bar text, the short text and the color, one per line.
pub open spec fn spec_render(snap: Option<&Snapshot>, anim: Anim) -> Seq<char> {
    if shown(snap) {
        let s = snap->0;
        spec_bar_text(s, anim) + "\n"@ + short_text(s) + "\n"@ + color_text(s)
    } else {
        "\n\n"@
    }
}

/// The three i3blocks lines.
pub fn render(snap: Option<&Snapshot>, anim: Anim) -> (r: String)
    ensures
        r@ == spec_render(snap, anim),
{
    let snap = match snap {
        Some(s) => {
            if s.is_empty() {
                return String::from_str("\n\n");
            }
            s
        },
        None => return String::from_str("\n\n"),
    };
    let kind = snap.summary.headline_kind.as_str();
    let busy = crate::text::str_eq(kind, "busy");
    let waiting = super::waiting_kind(kind);
    let mut out = super::bar_text(snap, anim);
    out.append("\n");
    if waiting {
        out.append("⏳");
        let w: u32 = if snap.summary.waiting >= 1 { snap.summary.waiting } else { 1 };
        let d = crate::text::decimal_string(w as u64);
        out.append(d.as_str());
    } else if busy {
        out.append("●");
    } else {
        let d = crate::text::decimal_string(snap.sessions.len() as u64);
        out.append(d.as_str());
    }
    out.append("\n");
    if busy {
        match super::mode_hex(super::opt_as_str(&snap.summary.mode)) {
            Some(h) => out.append(h),
            None => {},
        }
    } else if waiting {
        out.append("#ffffff");
    }
    out
}


/// i3blocks reads exactly three lines: when the bar text has no line break
/// of its own, the output has two.
pub proof fn lemma_three_lines(snap: &Snapshot, anim: Anim)
    requires
        line_breaks(spec_bar_text(snap, anim)) == 0,
    ensures
        line_breaks(spec_render(Some(snap), anim)) == 2,
{
    reveal_strlit("\n");
    reveal_strlit("\n\n");
    reveal_strlit("⏳");
    reveal_strlit("●");
    reveal_strlit("#ffffff");
    reveal_strlit("#034cff");
    reveal_strlit("#a753ae");
    lemma_line_breaks_char('\n');
    lemma_line_breaks_char('⏳');
    lemma_line_breaks_char('●');
    assert("\n"@ =~= seq!['\n']);
    assert("⏳"@ =~= seq!['⏳']);
    assert("●"@ =~= seq!['●']);
    if shown(Some(snap)) {
        let t = spec_bar_text(snap, anim);
        let a = short_text(snap);
        let b = color_text(snap);
        let w: nat = if snap.summary.waiting >= 1 { snap.summary.waiting as nat } else { 1 };
        lemma_decimal_no_break(w);
        lemma_decimal_no_break(snap.sessions@.len());
        lemma_line_breaks_add("⏳"@, decimal(w));
        assert(line_breaks(a) == 0);
        lemma_hex_no_break("#ffffff"@);
        lemma_hex_no_break("#034cff"@);
        lemma_hex_no_break("#a753ae"@);
        assert(line_breaks(b) == 0);
        lemma_line_breaks_add(t, "\n"@);
        lemma_line_breaks_add(t + "\n"@, a);
        lemma_line_breaks_add(t + "\n"@ + a, "\n"@);
        lemma_line_breaks_add(t + "\n"@ + a + "\n"@, b);
    } else {
        assert("\n\n"@ =~= seq!['\n'] + seq!['\n']);
        lemma_line_breaks_add(seq!['\n'], seq!['\n']);
    }
}

proof fn lemma_hex_no_break(h: Seq<char>)
    requires
        h.len() == 7,
        forall|i: int| 0 <= i < 7 ==> #[trigger] h[i] != '\n',
    ensures
        line_breaks(h) == 0,
{
    assert(h.drop_last().drop_last().drop_last().drop_last().drop_last().drop_last().drop_last()
        =~= Seq::<char>::empty());
    reveal_with_fuel(line_breaks, 8);
}


/// The i3blocks lines for every kind of headline. Waiting (`permission` or
/// `question`, both alike): ⏳ and the waiting count (at least 1), in white.
/// Busy: ● in the agent's color (build `#034cff`, plan `#a753ae`, none for
/// another agent). Anything else: the number of sessions and no color.
/// Without sessions: an empty block.
pub proof fn lemma_i3blocks_lines(snap: &Snapshot, anim: Anim)
    ensures
        snap.sessions@.len() == 0 ==> spec_render(Some(snap), anim) == "\n\n"@,
        ({
            let kind = snap.summary.headline_kind@;
            let text = spec_bar_text(snap, anim);
            let out = spec_render(Some(snap), anim);
            let w: nat = if snap.summary.waiting >= 1 { snap.summary.waiting as nat } else { 1 };
            let shown = snap.sessions@.len() > 0;
            &&& (shown && (kind == "permission"@ || kind == "question"@)) ==> out == text + "\n"@ + (
            "⏳"@ + decimal(w)) + "\n"@ + "#ffffff"@
            &&& (shown && kind == "busy"@ && (snap.summary.mode matches Some(m) && m@ == "build"@))
                ==> out == text + "\n"@ + "●"@ + "\n"@ + "#034cff"@
            &&& (shown && kind == "busy"@ && (snap.summary.mode matches Some(m) && m@ == "plan"@))
                ==> out == text + "\n"@ + "●"@ + "\n"@ + "#a753ae"@
            &&& (shown && kind == "busy"@ && !(snap.summary.mode matches Some(m) && (m@ == "build"@
                || m@ == "plan"@))) ==> out == text + "\n"@ + "●"@ + "\n"@
            &&& (shown && kind != "busy"@ && kind != "permission"@ && kind != "question"@) ==> out
                == text + "\n"@ + decimal(snap.sessions@.len()) + "\n"@
        }),
{
    super::lemma_kind_names_distinct();
    let text = spec_bar_text(snap, anim);
    assert(text + "\n"@ + "●"@ + "\n"@ + Seq::<char>::empty() =~= text + "\n"@ + "●"@ + "\n"@);
    assert(text + "\n"@ + decimal(snap.sessions@.len()) + "\n"@ + Seq::<char>::empty() =~= text
        + "\n"@ + decimal(snap.sessions@.len()) + "\n"@);
}

} // verus!
