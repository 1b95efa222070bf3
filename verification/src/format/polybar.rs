//! Polybar: a single line with optional format tags. Busy text is colored
//! by the OpenCode agent mode (build/plan) through `%{F…}` foreground tags.

use vstd::prelude::*;
use vstd::string::*;

use crate::model::Snapshot;
use crate::spinner::Anim;
use super::{is_waiting_kind, opt_view, shown, spec_bar_text, spec_mode_hex};

verus! {

/// Empty when nothing is shown. Otherwise the bar text: wrapped in the
/// agent color while busy with a known agent, in white while waiting, and
/// bare in every other case. `%{F…}` sets and `%{F-}` resets the foreground.
pub open spec fn spec_render(snap: Option<&Snapshot>, anim: Anim) -> Seq<char> {
    if shown(snap) {
        let s = snap->0;
        let text = spec_bar_text(s, anim);
        let kind = s.summary.headline_kind@;
        if kind == "busy"@ {
            match spec_mode_hex(opt_view(s.summary.mode)) {
                Some(h) => "%{F"@ + h + "}"@ + text + "%{F-}"@,
                None => text,
            }
        } else if is_waiting_kind(kind) {
            "%{F#ffffff}"@ + text + "%{F-}"@
        } else {
            text
        }
    } else {
        Seq::empty()
    }
}

/// The polybar line.
pub fn render(snap: Option<&Snapshot>, anim: Anim) -> (r: String)
    ensures
        r@ == spec_render(snap, anim),
{
    let snap = match snap {
        Some(s) => {
            if s.is_empty() {
                return String::new();
            }
            s
        },
        None => return String::new(),
    };
    let text = super::bar_text(snap, anim);
    let kind = snap.summary.headline_kind.as_str();
    if crate::text::str_eq(kind, "busy") {
        match super::mode_hex(super::opt_as_str(&snap.summary.mode)) {
            Some(h) => {
                let mut out = String::from_str("%{F");
                out.append(h);
                out.append("}");
                out.append(text.as_str());
                out.append("%{F-}");
                out
            },
            None => text,
        }
    } else if super::waiting_kind(kind) {
        let mut out = String::from_str("%{F#ffffff}");
        out.append(text.as_str());
        out.append("%{F-}");
        out
    } else {
        text
    }
}


/// The polybar line for every kind of headline: waiting (`permission` or
/// `question`) wraps the bar text in white; busy wraps it in the agent's
/// color (build `#034cff`, plan `#a753ae`) and leaves it bare for another
/// agent; anything else is the bare text. Without sessions: empty.
pub proof fn lemma_polybar_colors(snap: &Snapshot, anim: Anim)
    ensures
        snap.sessions@.len() == 0 ==> spec_render(Some(snap), anim) == Seq::<char>::empty(),
        ({
            let kind = snap.summary.headline_kind@;
            let text = spec_bar_text(snap, anim);
            let out = spec_render(Some(snap), anim);
            let shown = snap.sessions@.len() > 0;
            &&& (shown && (kind == "permission"@ || kind == "question"@)) ==> out == "%{F#ffffff}"@
                + text + "%{F-}"@
            &&& (shown && kind == "busy"@ && (snap.summary.mode matches Some(m) && m@ == "build"@))
                ==> out == "%{F"@ + "#034cff"@ + "}"@ + text + "%{F-}"@
            &&& (shown && kind == "busy"@ && (snap.summary.mode matches Some(m) && m@ == "plan"@))
                ==> out == "%{F"@ + "#a753ae"@ + "}"@ + text + "%{F-}"@
            &&& (shown && kind == "busy"@ && !(snap.summary.mode matches Some(m) && (m@ == "build"@
                || m@ == "plan"@))) ==> out == text
            &&& (shown && kind != "busy"@ && kind != "permission"@ && kind != "question"@) ==> out
                == text
        }),
{
    super::lemma_kind_names_distinct();
}

} // verus!
