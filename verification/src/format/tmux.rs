//! tmux status-line fragment: a single line with tmux style tags
//! (`#[fg=…]`/`#[default]`). Busy text is colored by the OpenCode agent mode
//! (build/plan); waiting shows bold white.
//!
//! tmux treats `#` as the start of a format expansion, so every `#` of the
//! session-derived text is doubled (`##`); the style tags are emitted as
//! they are.

use vstd::prelude::*;
use vstd::string::*;

use crate::model::Snapshot;
use crate::spinner::Anim;
use super::{is_waiting_kind, opt_view, shown, spec_bar_text, spec_mode_hex};

verus! {

/// The text with every `#` doubled.
pub open spec fn spec_tmux_escape(s: Seq<char>) -> Seq<char>
    decreases s.len(),
{
    if s.len() == 0 {
        Seq::empty()
    } else {
        spec_tmux_escape(s.drop_last()) + if s.last() == '#' {
            seq!['#', '#']
        } else {
            seq![s.last()]
        }
    }
}

/// Empty when nothing is shown. Otherwise the escaped bar text: in the
/// agent color while busy with a known agent, bold white while waiting,
/// bare in every other case.
pub open spec fn spec_render(snap: Option<&Snapshot>, anim: Anim) -> Seq<char> {
    if shown(snap) {
        let s = snap->0;
        let text = spec_tmux_escape(spec_bar_text(s, anim));
        let kind = s.summary.headline_kind@;
        if kind == "busy"@ {
            match spec_mode_hex(opt_view(s.summary.mode)) {
                Some(h) => "#[fg="@ + h + "]"@ + text + "#[default]"@,
                None => text,
            }
        } else if is_waiting_kind(kind) {
            "#[fg=#ffffff,bold]"@ + text + "#[default]"@
        } else {
            text
        }
    } else {
        Seq::empty()
    }
}

/// The tmux status fragment.
pub fn render(snap: Option<&Snapshot>, anim: Anim) -> (r: String)
    ensures
        r@ == spec_render(snap, anim),
{
    let snap = match snap {
        Some(s) => {
            if s.is_empty() {
                return String::new();
            }
            s
        },
        None => return String::new(),
    };
    let raw = super::bar_text(snap, anim);
    let text = tmux_escape(raw.as_str());
    let kind = snap.summary.headline_kind.as_str();
    if crate::text::str_eq(kind, "busy") {
        match super::mode_hex(super::opt_as_str(&snap.summary.mode)) {
            Some(h) => {
                let mut out = String::from_str("#[fg=");
                out.append(h);
                out.append("]");
                out.append(text.as_str());
                out.append("#[default]");
                out
            },
            None => text,
        }
    } else if super::waiting_kind(kind) {
        let mut out = String::from_str("#[fg=#ffffff,bold]");
        out.append(text.as_str());
        out.append("#[default]");
        out
    } else {
        text
    }
}

/// Doubles every `#` so tmux prints it instead of starting an expansion.
pub fn tmux_escape(s: &str) -> (r: String)
    ensures
        r@ == spec_tmux_escape(s@),
{
    let n = s.unicode_len();
    let mut out = String::new();
    let mut i: usize = 0;
    while i < n
        invariant
            n == s@.len(),
            i <= n,
            out@ == spec_tmux_escape(s@.take(i as int)),
        decreases n - i,
    {
        let c = s.get_char(i);
        crate::text::push_char(&mut out, c);
        if c == '#' {
            crate::text::push_char(&mut out, '#');
        }
        assert(s@.take(i + 1).drop_last() =~= s@.take(i as int));
        assert(out@ =~= spec_tmux_escape(s@.take(i + 1)));
        i = i + 1;
    }
    assert(s@.take(n as int) =~= s@);
    out
}


/// The tmux fragment for every kind of headline: waiting (`permission` or
/// `question`) is the escaped bar text in bold white; busy is it in the
/// agent's color (build `#034cff`, plan `#a753ae`), bare for another
/// agent; anything else is the bare escaped text. Without sessions: empty.
pub proof fn lemma_tmux_styles(snap: &Snapshot, anim: Anim)
    ensures
        snap.sessions@.len() == 0 ==> spec_render(Some(snap), anim) == Seq::<char>::empty(),
        ({
            let kind = snap.summary.headline_kind@;
            let text = spec_tmux_escape(spec_bar_text(snap, anim));
            let out = spec_render(Some(snap), anim);
            let shown = snap.sessions@.len() > 0;
            &&& (shown && (kind == "permission"@ || kind == "question"@)) ==> out
                == "#[fg=#ffffff,bold]"@ + text + "#[default]"@
            &&& (shown && kind == "busy"@ && (snap.summary.mode matches Some(m) && m@ == "build"@))
                ==> out == "#[fg="@ + "#034cff"@ + "]"@ + text + "#[default]"@
            &&& (shown && kind == "busy"@ && (snap.summary.mode matches Some(m) && m@ == "plan"@))
                ==> out == "#[fg="@ + "#a753ae"@ + "]"@ + text + "#[default]"@
            &&& (shown && kind == "busy"@ && !(snap.summary.mode matches Some(m) && (m@ == "build"@
                || m@ == "plan"@))) ==> out == text
            &&& (shown && kind != "busy"@ && kind != "permission"@ && kind != "question"@) ==> out
                == text
        }),
{
    super::lemma_kind_names_distinct();
}

/// Escaping works character by character (it distributes over
/// concatenation), doubles `#`, and leaves every other character alone.
pub proof fn lemma_tmux_escape_doubles_hash(a: Seq<char>, b: Seq<char>, c: char)
    ensures
        spec_tmux_escape(a + b) == spec_tmux_escape(a) + spec_tmux_escape(b),
        spec_tmux_escape(seq!['#']) == seq!['#', '#'],
        c != '#' ==> spec_tmux_escape(seq![c]) == seq![c],
        spec_tmux_escape(Seq::empty()) == Seq::<char>::empty(),
    decreases b.len(),
{
    assert(seq!['#'].drop_last() =~= Seq::<char>::empty());
    assert(seq![c].drop_last() =~= Seq::<char>::empty());
    assert(seq!['#'].last() == '#');
    assert(seq![c].last() == c);
    assert(spec_tmux_escape(Seq::<char>::empty()) =~= Seq::<char>::empty());
    assert(spec_tmux_escape(seq!['#']) == spec_tmux_escape(seq!['#'].drop_last()) + seq!['#', '#']);
    assert(Seq::<char>::empty() + seq!['#', '#'] =~= seq!['#', '#']);
    if c != '#' {
        assert(spec_tmux_escape(seq![c]) == spec_tmux_escape(seq![c].drop_last()) + seq![c]);
        assert(Seq::<char>::empty() + seq![c] =~= seq![c]);
    }
    if b.len() == 0 {
        assert(a + b =~= a);
        assert(spec_tmux_escape(a) + spec_tmux_escape(b) =~= spec_tmux_escape(a));
    } else {
        lemma_tmux_escape_doubles_hash(a, b.drop_last(), c);
        assert((a + b).drop_last() =~= a + b.drop_last());
        assert((a + b).last() == b.last());
    }
}

} // verus!
