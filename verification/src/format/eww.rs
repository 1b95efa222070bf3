//! eww: one JSON object that an eww `deflisten` can destructure. Includes
//! the agent `mode` and its resolved `color` (OpenCode agent hex).

use vstd::prelude::*;
use vstd::string::*;

use crate::json_text::json_quoted;
use crate::model::Snapshot;
use crate::spinner::Anim;
use crate::text::{decimal, int_decimal};
use super::{opt_view, shown, spec_bar_classes, spec_bar_text, spec_is_busy, spec_mode_hex};

verus! {

/// A JSON string for present text, `null` for absent text.
pub open spec fn json_opt(o: Option<Seq<char>>) -> Seq<char> {
    match o {
        Some(s) => json_quoted(s),
        None => "null"@,
    }
}

/// The object written when nothing is shown.
pub open spec fn empty_object() -> Seq<char> {
    "{\"busy\":0,\"class\":\"empty\",\"color\":null,\"mode\":null,\"text\":\"\",\"total\":0,\"waiting\":0}"@
}

/// The agent color, while busy and for a known agent.
pub open spec fn busy_color(s: &Snapshot) -> Option<Seq<char>> {
    if spec_is_busy(s) {
        spec_mode_hex(opt_view(s.summary.mode))
    } else {
        None
    }
}

/// The object for a shown snapshot; keys in serde_json's (alphabetical)
/// order.
pub open spec fn object(s: &Snapshot, anim: Anim) -> Seq<char> {
    "{\"busy\":"@ + int_decimal(s.summary.busy as int) + ",\"class\":"@ + json_quoted(
        spec_bar_classes(s, anim),
    ) + ",\"color\":"@ + json_opt(busy_color(s)) + ",\"headline\":"@ + json_quoted(
        s.summary.headline@,
    ) + ",\"mode\":"@ + json_opt(opt_view(s.summary.mode)) + ",\"text\":"@ + json_quoted(
        spec_bar_text(s, anim),
    ) + ",\"total\":"@ + int_decimal(s.summary.total as int) + ",\"waiting\":"@ + int_decimal(
        s.summary.waiting as int,
    ) + "}"@
}

/// The eww object, or the fixed empty object when nothing is shown.
pub open spec fn spec_render(snap: Option<&Snapshot>, anim: Anim) -> Seq<char> {
    if shown(snap) {
        object(snap->0, anim)
    } else {
        empty_object()
    }
}

fn push_json_opt(out: &mut String, o: Option<&str>)
    ensures
        final(out)@ == old(out)@ + json_opt(super::opt_str_view(o)),
{
    match o {
        Some(s) => {
            let q = crate::json_text::json_string(s);
            out.append(q.as_str());
        },
        None => out.append("null"),
    }
}

/// The eww JSON object.
pub fn render(snap: Option<&Snapshot>, anim: Anim) -> (r: String)
    ensures
        r@ == spec_render(snap, anim),
{
    let snap = match snap {
        Some(s) => {
            if s.is_empty() {
                return String::from_str(
                    "{\"busy\":0,\"class\":\"empty\",\"color\":null,\"mode\":null,\"text\":\"\",\"total\":0,\"waiting\":0}",
                );
            }
            s
        },
        None => {
            return String::from_str(
                "{\"busy\":0,\"class\":\"empty\",\"color\":null,\"mode\":null,\"text\":\"\",\"total\":0,\"waiting\":0}",
            )
        },
    };
    let mode = super::opt_as_str(&snap.summary.mode);
    let mut out = String::from_str("{\"busy\":");
    let b = crate::json_text::json_int(snap.summary.busy as i64);
    out.append(b.as_str());
    out.append(",\"class\":");
    let classes = super::bar_classes(snap, anim);
    let c = crate::json_text::json_string(classes.as_str());
    out.append(c.as_str());
    out.append(",\"color\":");
    let color = if super::is_busy(snap) { super::mode_hex(mode) } else { None };
    push_json_opt(&mut out, color);
    out.append(",\"headline\":");
    let h = crate::json_text::json_string(snap.summary.headline.as_str());
    out.append(h.as_str());
    out.append(",\"mode\":");
    push_json_opt(&mut out, mode);
    out.append(",\"text\":");
    let text = super::bar_text(snap, anim);
    let t = crate::json_text::json_string(text.as_str());
    out.append(t.as_str());
    out.append(",\"total\":");
    let n = crate::json_text::json_int(snap.summary.total as i64);
    out.append(n.as_str());
    out.append(",\"waiting\":");
    let w = crate::json_text::json_int(snap.summary.waiting as i64);
    out.append(w.as_str());
    out.append("}");
    out
}


/// The eww object for every snapshot. Without sessions: the fixed empty
/// object. Otherwise the counts, the bar classes, the headline, the agent
/// (`null` when unknown), the bar text, and a color that only a busy
/// headline with a known agent has (build `#034cff`, plan `#a753ae`); in
/// every other case, waiting included, the color is `null`.
pub proof fn lemma_eww_object(snap: &Snapshot, anim: Anim)
    ensures
        snap.sessions@.len() == 0 ==> spec_render(Some(snap), anim)
            == "{\"busy\":0,\"class\":\"empty\",\"color\":null,\"mode\":null,\"text\":\"\",\"total\":0,\"waiting\":0}"@,
        ({
            let busy = snap.summary.headline_kind@ == "busy"@;
            let color = if busy && (snap.summary.mode matches Some(m) && m@ == "build"@) {
                json_quoted("#034cff"@)
            } else if busy && (snap.summary.mode matches Some(m) && m@ == "plan"@) {
                json_quoted("#a753ae"@)
            } else {
                "null"@
            };
            let agent = match snap.summary.mode {
                Some(m) => json_quoted(m@),
                None => "null"@,
            };
            snap.sessions@.len() > 0 ==> spec_render(Some(snap), anim) == "{\"busy\":"@
                + decimal(snap.summary.busy as nat) + ",\"class\":"@ + json_quoted(
                spec_bar_classes(snap, anim),
            ) + ",\"color\":"@ + color + ",\"headline\":"@ + json_quoted(snap.summary.headline@)
                + ",\"mode\":"@ + agent + ",\"text\":"@ + json_quoted(spec_bar_text(snap, anim))
                + ",\"total\":"@ + decimal(snap.summary.total as nat) + ",\"waiting\":"@ + decimal(
                snap.summary.waiting as nat,
            ) + "}"@
        }),
{
    super::lemma_kind_names_distinct();
}

} // verus!
