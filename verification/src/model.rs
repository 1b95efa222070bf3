//! The session snapshot served by the opencode-sessionbar plugin.
//!
//! Field for field these are the types of the plugin's wire format; the
//! JSON decoding itself (with its permissive defaults) happens where the
//! snapshot is fetched.

use vstd::prelude::*;
use vstd::string::*;

verus! {

/// One snapshot: a summary, the listed sessions and when it was built.
#[derive(Debug, Clone)]
pub struct Snapshot {
    pub summary: Summary,
    pub sessions: Vec<SessionEntry>,
    /// Epoch milliseconds at which the plugin built the snapshot.
    pub at: i64,
}

/// Counts and the headline that a status bar shows.
#[derive(Debug, Clone)]
pub struct Summary {
    pub total: u32,
    pub busy: u32,
    pub waiting: u32,
    pub idle: u32,
    pub headline: String,
    /// `permission` | `question` | `busy` | `idle`.
    pub headline_kind: String,
    /// Agent of the headline session: "build" | "plan" | custom. None if unknown.
    pub mode: Option<String>,
}

/// One session as listed by the plugin.
#[derive(Debug, Clone)]
pub struct SessionEntry {
    pub id: String,
    pub title: String,
    /// `waiting` | `busy` | `done` | `idle`.
    pub status: String,
    pub detail: String,
    /// Epoch milliseconds of the last update.
    pub updated: i64,
    pub age_label: String,
    /// Agent of the latest assistant message: "build" | "plan" | custom.
    pub mode: Option<String>,
}

/// The headline kind assumed when a snapshot omits it.
pub fn default_kind() -> (r: String)
    ensures
        r@ == "idle"@,
{
    String::from_str("idle")
}

impl Default for Summary {
    fn default() -> (r: Summary)
        ensures
            r.total == 0,
            r.busy == 0,
            r.waiting == 0,
            r.idle == 0,
            r.headline@ == Seq::<char>::empty(),
            r.headline_kind@ == Seq::<char>::empty(),
            r.mode is None,
    {
        Summary {
            total: 0,
            busy: 0,
            waiting: 0,
            idle: 0,
            headline: String::new(),
            headline_kind: String::new(),
            mode: None,
        }
    }
}

impl Default for Snapshot {
    fn default() -> (r: Snapshot)
        ensures
            r.summary.total == 0,
            r.summary.busy == 0,
            r.summary.waiting == 0,
            r.summary.idle == 0,
            r.summary.headline@ == Seq::<char>::empty(),
            r.summary.headline_kind@ == Seq::<char>::empty(),
            r.summary.mode is None,
            r.sessions@.len() == 0,
            r.at == 0,
    {
        Snapshot { summary: Summary::default(), sessions: Vec::new(), at: 0 }
    }
}

/// The status glyph of a session status: ★ waiting, ● busy, ✓ done,
/// ○ anything else.
pub open spec fn status_glyph(status: Seq<char>) -> Seq<char> {
    if status == "waiting"@ {
        "★"@
    } else if status == "busy"@ {
        "●"@
    } else if status == "done"@ {
        "✓"@
    } else {
        "○"@
    }
}

impl SessionEntry {
    /// A short status glyph shared by the text formatters and the TUI.
    pub fn glyph(&self) -> (r: &'static str)
        ensures
            r@ == status_glyph(self.status@),
    {
        let s = self.status.as_str();
        if crate::text::str_eq(s, "waiting") {
            "★"
        } else if crate::text::str_eq(s, "busy") {
            "●"
        } else if crate::text::str_eq(s, "done") {
            "✓"
        } else {
            "○"
        }
    }
}

impl Snapshot {
    /// True when no session is listed.
    pub fn is_empty(&self) -> (r: bool)
        ensures
            r == (self.sessions@.len() == 0),
    {
        self.sessions.len() == 0
    }
}


/// The status glyphs: ★ waiting, ● busy, ✓ done, ○ for any other status.
pub proof fn lemma_status_glyphs(status: Seq<char>)
    ensures
        status_glyph("waiting"@) == "★"@,
        status_glyph("busy"@) == "●"@,
        status_glyph("done"@) == "✓"@,
        (status != "waiting"@ && status != "busy"@ && status != "done"@) ==> status_glyph(status)
            == "○"@,
{
    reveal_strlit("waiting");
    reveal_strlit("busy");
    reveal_strlit("done");
    assert("busy"@.len() != "waiting"@.len());
    assert("done"@.len() != "waiting"@.len());
    assert("done"@[0] != "busy"@[0]);
}

} // verus!
