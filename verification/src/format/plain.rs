//! Plain text: the bar text on the first line, then one line per session.
//! For generic bars, scripts, or `watch` in a terminal.

use vstd::prelude::*;
use vstd::string::*;

use crate::model::{SessionEntry, Snapshot};
use crate::spinner::Anim;
use crate::text::{lemma_line_breaks_add, lemma_line_breaks_char, line_breaks};
use super::{shown, spec_bar_text, spec_tooltip_line};

verus! {

/// The session lines, each after a line break.
pub open spec fn session_lines(sessions: Seq<SessionEntry>) -> Seq<char>
    decreases sessions.len(),
{
    if sessions.len() == 0 {
        Seq::empty()
    } else {
        session_lines(sessions.drop_last()) + "\n"@ + spec_tooltip_line(sessions.last())
    }
}

/// Empty when nothing is shown; otherwise the bar text followed by one
/// line per session.
pub open spec fn spec_render(snap: Option<&Snapshot>, anim: Anim) -> Seq<char> {
    if shown(snap) {
        spec_bar_text(snap->0, anim) + session_lines(snap->0.sessions@)
    } else {
        Seq::empty()
    }
}

/// The bar text, then the tooltip lines.
pub fn render(snap: Option<&Snapshot>, anim: Anim) -> (r: String)
    ensures
        r@ == spec_render(snap, anim),
{
    let snap = match snap {
        Some(s) => {
            if s.is_empty() {
                return String::new();
            }
            s
        },
        None => return String::new(),
    };
    let mut out = super::bar_text(snap, anim);
    let lines = super::tooltip_lines(snap);
    let ghost head = out@;
    let n = lines.len();
    let mut i: usize = 0;
    while i < n
        invariant
            n == lines@.len(),
            n == snap.sessions@.len(),
            i <= n,
            forall|j: int| 0 <= j < n ==> #[trigger] lines@[j]@ == spec_tooltip_line(snap.sessions@[j]),
            out@ == head + session_lines(snap.sessions@.take(i as int)),
        decreases n - i,
    {
        out.append("\n");
        out.append(lines[i].as_str());
        assert(snap.sessions@.take(i + 1).drop_last() =~= snap.sessions@.take(i as int));
        i = i + 1;
    }
    assert(snap.sessions@.take(n as int) =~= snap.sessions@);
    out
}


proof fn lemma_session_lines_breaks(sessions: Seq<SessionEntry>)
    requires
        forall|i: int| 0 <= i < sessions.len() ==> line_breaks(#[trigger] spec_tooltip_line(sessions[i])) == 0,
    ensures
        line_breaks(session_lines(sessions)) == sessions.len(),
    decreases sessions.len(),
{
    if sessions.len() > 0 {
        let p = sessions.drop_last();
        assert forall|i: int| 0 <= i < p.len() implies line_breaks(#[trigger] spec_tooltip_line(p[i])) == 0 by {
            assert(p[i] == sessions[i]);
        }
        lemma_session_lines_breaks(p);
        reveal_strlit("\n");
        assert("\n"@ =~= seq!['\n']);
        lemma_line_breaks_char('\n');
        lemma_line_breaks_add(session_lines(p), "\n"@);
        lemma_line_breaks_add(session_lines(p) + "\n"@, spec_tooltip_line(sessions.last()));
        assert(line_breaks(spec_tooltip_line(sessions[sessions.len() - 1])) == 0);
    }
}

/// The bar text on the first line, then one line per session: when no
/// text of the snapshot holds a line break of its own, the output has one
/// line break per session.
pub proof fn lemma_one_line_per_session(snap: &Snapshot, anim: Anim)
    requires
        snap.sessions@.len() > 0,
        line_breaks(spec_bar_text(snap, anim)) == 0,
        forall|i: int| 0 <= i < snap.sessions@.len() ==> line_breaks(#[trigger] spec_tooltip_line(snap.sessions@[i])) == 0,
    ensures
        line_breaks(spec_render(Some(snap), anim)) == snap.sessions@.len(),
{
    lemma_session_lines_breaks(snap.sessions@);
    lemma_line_breaks_add(spec_bar_text(snap, anim), session_lines(snap.sessions@));
}


/// The plain text for every snapshot: empty without sessions; otherwise
/// the bar text, then for each session in order a line break and its line.
pub proof fn lemma_plain_lines(snap: &Snapshot, anim: Anim, sessions: Seq<SessionEntry>, e: SessionEntry)
    ensures
        snap.sessions@.len() == 0 ==> spec_render(Some(snap), anim) == Seq::<char>::empty(),
        snap.sessions@.len() > 0 ==> spec_render(Some(snap), anim) == spec_bar_text(snap, anim)
            + session_lines(snap.sessions@),
        session_lines(Seq::empty()) == Seq::<char>::empty(),
        session_lines(sessions.push(e)) == session_lines(sessions) + "\n"@ + spec_tooltip_line(e),
{
    assert(sessions.push(e).drop_last() =~= sessions);
}

} // verus!
