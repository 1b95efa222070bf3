//! What the live popup shows and how it reacts: the header, one row per
//! session, the footer, the state fed by the SSE stream and the quit keys.
//! Drawing with ratatui happens in the program.

use vstd::prelude::*;
use vstd::string::*;

use crate::format::is_waiting_kind;
use crate::model::{status_glyph, SessionEntry, Snapshot};
use crate::text::decimal;

verus! {

/// The colors and weights of the popup's text.
#[derive(Debug, Clone, Copy, PartialEq, Eq, Structural)]
pub enum Paint {
    /// The terminal's default style.
    Plain,
    White,
    WhiteBold,
    Gray,
    DarkGray,
    Green,
    Yellow,
}

/// A run of text in one paint.
pub struct Piece {
    pub text: String,
    pub paint: Paint,
}

/// Everything the popup draws for one state.
pub struct TuiView {
    /// The header line, inside a box titled " SessionBar ".
    pub headline: String,
    pub headline_paint: Paint,
    /// The list, one line per row.
    pub rows: Vec<Vec<Piece>>,
    /// The status line at the bottom.
    pub footer: Vec<Piece>,
}

/// The view of a piece.
pub open spec fn piece_view(p: Piece) -> (Seq<char>, Paint) {
    (p.text@, p.paint)
}

/// The view of a line of pieces.
pub open spec fn line_view(l: Seq<Piece>) -> Seq<(Seq<char>, Paint)> {
    l.map_values(|p: Piece| piece_view(p))
}

/// The header text: the headline (or a session count when it is empty)
/// for a snapshot with sessions, "No active sessions" for an empty one,
/// "Connecting…" before the first snapshot.
pub open spec fn spec_headline(snap: Option<&Snapshot>) -> Seq<char> {
    match snap {
        Some(s) => if s.sessions@.len() > 0 {
            if s.summary.headline@.len() == 0 {
                decimal(s.sessions@.len()) + " sessions"@
            } else {
                s.summary.headline@
            }
        } else {
            "No active sessions"@
        },
        None => "Connecting…"@,
    }
}

/// The headline kind that styles the header: the snapshot's when it lists
/// sessions, `idle` otherwise.
pub open spec fn header_kind(snap: Option<&Snapshot>) -> Seq<char> {
    match snap {
        Some(s) => if s.sessions@.len() > 0 { s.summary.headline_kind@ } else { "idle"@ },
        None => "idle"@,
    }
}

/// Bold white while waiting, white while busy, gray otherwise.
pub open spec fn spec_header_paint(kind: Seq<char>) -> Paint {
    if is_waiting_kind(kind) {
        Paint::WhiteBold
    } else if kind == "busy"@ {
        Paint::White
    } else {
        Paint::Gray
    }
}

/// The glyph's paint by session status.
pub open spec fn spec_glyph_paint(status: Seq<char>) -> Paint {
    if status == "waiting"@ {
        Paint::WhiteBold
    } else if status == "busy"@ {
        Paint::White
    } else if status == "done"@ {
        Paint::Green
    } else {
        Paint::DarkGray
    }
}

/// One session row: glyph, title, detail and age.
pub open spec fn spec_session_row(e: SessionEntry) -> Seq<(Seq<char>, Paint)> {
    seq![
        (status_glyph(e.status@) + " "@, spec_glyph_paint(e.status@)),
        (e.title@, Paint::Plain),
        ("  "@ + e.detail@ + "  "@, Paint::DarkGray),
        ("("@ + e.age_label@ + ")"@, Paint::DarkGray),
    ]
}

/// The list rows: the sessions of a snapshot that has some, a placeholder
/// for an empty snapshot, nothing before the first snapshot.
pub open spec fn spec_rows(snap: Option<&Snapshot>) -> Seq<Seq<(Seq<char>, Paint)>> {
    match snap {
        Some(s) => if s.sessions@.len() > 0 {
            s.sessions@.map_values(|e: SessionEntry| spec_session_row(e))
        } else {
            seq![seq![("  (no active sessions)"@, Paint::DarkGray)]]
        },
        None => Seq::empty(),
    }
}

/// The footer: the connection state and the quit hint.
pub open spec fn spec_footer(connected: bool) -> Seq<(Seq<char>, Paint)> {
    seq![
        if connected { ("● live"@, Paint::Green) } else { ("○ reconnecting…"@, Paint::Yellow) },
        ("   q/Esc quit"@, Paint::DarkGray),
    ]
}

fn piece(text: String, paint: Paint) -> (r: Piece)
    ensures
        piece_view(r) == (text@, paint),
{
    Piece { text, paint }
}

fn glyph_paint(status: &str) -> (r: Paint)
    ensures
        r == spec_glyph_paint(status@),
{
    if crate::text::str_eq(status, "waiting") {
        Paint::WhiteBold
    } else if crate::text::str_eq(status, "busy") {
        Paint::White
    } else if crate::text::str_eq(status, "done") {
        Paint::Green
    } else {
        Paint::DarkGray
    }
}

fn session_row(e: &SessionEntry) -> (r: Vec<Piece>)
    ensures
        line_view(r@) == spec_session_row(*e),
{
    let mut g = String::from_str(e.glyph());
    g.append(" ");
    let mut d = String::from_str("  ");
    d.append(e.detail.as_str());
    d.append("  ");
    let mut a = String::from_str("(");
    a.append(e.age_label.as_str());
    a.append(")");
    let mut row: Vec<Piece> = Vec::new();
    row.push(piece(g, glyph_paint(e.status.as_str())));
    row.push(piece(e.title.clone(), Paint::Plain));
    row.push(piece(d, Paint::DarkGray));
    row.push(piece(a, Paint::DarkGray));
    assert(line_view(row@) =~= spec_session_row(*e));
    row
}

/// What the popup shows for the latest snapshot (none yet when `None`) and
/// the stream's connection state.
pub fn view(snap: Option<&Snapshot>, connected: bool) -> (r: TuiView)
    ensures
        r.headline@ == spec_headline(snap),
        r.headline_paint == spec_header_paint(header_kind(snap)),
        r.rows@.len() == spec_rows(snap).len(),
        forall|i: int| 0 <= i < r.rows@.len() ==> line_view(#[trigger] r.rows@[i]@) == spec_rows(snap)[i],
        line_view(r.footer@) == spec_footer(connected),
{
    proof {
        reveal_strlit("idle");
        reveal_strlit("permission");
        reveal_strlit("question");
        reveal_strlit("busy");
        assert("idle"@.len() != "permission"@.len());
        assert("idle"@.len() != "question"@.len());
        assert("idle"@[0] != "busy"@[0]);
    }
    let (headline, headline_paint) = match snap {
        Some(s) => {
            if s.sessions.len() > 0 {
                let h = if s.summary.headline.as_str().unicode_len() == 0 {
                    let mut t = crate::text::decimal_string(s.sessions.len() as u64);
                    t.append(" sessions");
                    t
                } else {
                    s.summary.headline.clone()
                };
                let kind = s.summary.headline_kind.as_str();
                let p = if crate::format::waiting_kind(kind) {
                    Paint::WhiteBold
                } else if crate::text::str_eq(kind, "busy") {
                    Paint::White
                } else {
                    Paint::Gray
                };
                (h, p)
            } else {
                (String::from_str("No active sessions"), Paint::Gray)
            }
        },
        None => (String::from_str("Connecting…"), Paint::Gray),
    };
    let mut rows: Vec<Vec<Piece>> = Vec::new();
    match snap {
        Some(s) => {
            if s.sessions.len() > 0 {
                let n = s.sessions.len();
                let mut i: usize = 0;
                while i < n
                    invariant
                        n == s.sessions@.len(),
                        i <= n,
                        rows@.len() == i,
                        forall|j: int| 0 <= j < i ==> line_view(#[trigger] rows@[j]@) == spec_session_row(s.sessions@[j]),
                    decreases n - i,
                {
                    rows.push(session_row(&s.sessions[i]));
                    i = i + 1;
                }
            } else {
                let mut line: Vec<Piece> = Vec::new();
                line.push(piece(String::from_str("  (no active sessions)"), Paint::DarkGray));
                assert(line_view(line@) =~= seq![("  (no active sessions)"@, Paint::DarkGray)]);
                rows.push(line);
            }
        },
        None => {},
    }
    let mut footer: Vec<Piece> = Vec::new();
    if connected {
        footer.push(piece(String::from_str("● live"), Paint::Green));
    } else {
        footer.push(piece(String::from_str("○ reconnecting…"), Paint::Yellow));
    }
    footer.push(piece(String::from_str("   q/Esc quit"), Paint::DarkGray));
    assert(line_view(footer@) =~= spec_footer(connected));
    TuiView { headline, headline_paint, rows, footer }
}

/// What the stream thread tells the popup.
pub enum Msg {
    /// A new snapshot arrived.
    Snap(Snapshot),
    /// The stream ended or could not be opened; it will be retried.
    Disconnected,
}

/// The state after a message: a snapshot replaces the previous one and
/// marks the stream live; a disconnect keeps the last snapshot and marks
/// the stream down.
pub open spec fn spec_apply(snapshot: Option<Snapshot>, msg: Msg) -> (Option<Snapshot>, bool) {
    match msg {
        Msg::Snap(s) => (Some(s), true),
        Msg::Disconnected => (snapshot, false),
    }
}

/// A dropped stream does not blank the popup: after a snapshot and then a
/// disconnect, that snapshot is still shown, marked as reconnecting.
pub proof fn lemma_disconnect_keeps_snapshot(prev: Option<Snapshot>, s: Snapshot)
    ensures
        spec_apply(spec_apply(prev, Msg::Snap(s)).0, Msg::Disconnected) == (Some(s), false),
{
}

/// The state after a run of messages, from a given state.
pub open spec fn apply_all(snapshot: Option<Snapshot>, connected: bool, msgs: Seq<Msg>) -> (Option<Snapshot>, bool)
    decreases msgs.len(),
{
    if msgs.len() == 0 {
        (snapshot, connected)
    } else {
        spec_apply(apply_all(snapshot, connected, msgs.drop_last()).0, msgs.last())
    }
}

/// Some message of the run is a snapshot.
pub open spec fn has_snap(msgs: Seq<Msg>) -> bool {
    exists|i: int| 0 <= i < msgs.len() && #[trigger] msgs[i] is Snap
}

/// What the popup draws after any run of stream messages: the payload of
/// the latest snapshot message (the earlier state's snapshot when there is
/// none), marked live exactly when the latest message was a snapshot.
pub proof fn lemma_popup_shows_latest(snapshot: Option<Snapshot>, connected: bool, msgs: Seq<Msg>)
    requires
        msgs.len() > 0,
    ensures
        apply_all(snapshot, connected, msgs).1 == (msgs.last() is Snap),
        forall|i: int|
            0 <= i < msgs.len() && (msgs[i] matches Msg::Snap(s))
                && (forall|j: int| i < j < msgs.len() ==> #[trigger] msgs[j] is Disconnected)
                ==> apply_all(snapshot, connected, msgs).0 == Some(msgs[i]->Snap_0),
        !has_snap(msgs) ==> apply_all(snapshot, connected, msgs).0 == snapshot,
    decreases msgs.len(),
{
    let p = msgs.drop_last();
    if p.len() > 0 {
        lemma_popup_shows_latest(snapshot, connected, p);
    }
    assert forall|i: int|
        0 <= i < msgs.len() && (msgs[i] matches Msg::Snap(s))
            && (forall|j: int| i < j < msgs.len() ==> #[trigger] msgs[j] is Disconnected)
        implies apply_all(snapshot, connected, msgs).0 == Some(msgs[i]->Snap_0) by {
        if i < msgs.len() - 1 {
            assert(msgs[msgs.len() - 1] is Disconnected);
            assert(p[i] == msgs[i]);
            assert forall|j: int| i < j < p.len() implies #[trigger] p[j] is Disconnected by {
                assert(p[j] == msgs[j]);
            }
        }
    }
    if !has_snap(msgs) {
        assert(!(msgs[msgs.len() - 1] is Snap));
        assert(msgs.last() is Disconnected);
        if p.len() == 0 {
            assert(apply_all(snapshot, connected, p) == (snapshot, connected));
        } else {
            assert(!has_snap(p)) by {
                if has_snap(p) {
                    let i = choose|i: int| 0 <= i < p.len() && #[trigger] p[i] is Snap;
                    assert(msgs[i] == p[i]);
                }
            }
        }
    }
}

/// The popup's state: the latest snapshot and whether the stream is live.
pub struct TuiState {
    pub snapshot: Option<Snapshot>,
    pub connected: bool,
}

impl TuiState {
    /// No snapshot yet, not connected.
    pub fn new() -> (r: TuiState)
        ensures
            r.snapshot is None,
            !r.connected,
    {
        TuiState { snapshot: None, connected: false }
    }

    /// A snapshot replaces the previous one and marks the stream live; a
    /// disconnect keeps the last snapshot and marks the stream down.
    pub fn apply(&mut self, msg: Msg)
        ensures
            (final(self).snapshot, final(self).connected) == spec_apply(
                old(self).snapshot,
                msg,
            ),
    {
        match msg {
            Msg::Snap(s) => {
                self.snapshot = Some(s);
                self.connected = true;
            },
            Msg::Disconnected => {
                self.connected = false;
            },
        }
    }
}

/// The keys the popup tells apart.
#[derive(Debug, Clone, Copy, PartialEq, Eq, Structural)]
pub enum Key {
    Char(char),
    Esc,
    Other,
}

/// `q`, `Esc` and `Ctrl-C` quit.
pub open spec fn spec_is_quit(key: Key, ctrl: bool) -> bool {
    key == Key::Char('q') || key == Key::Esc || (key == Key::Char('c') && ctrl)
}

/// Whether a key press (with Ctrl held or not) closes the popup.
pub fn is_quit(key: Key, ctrl: bool) -> (r: bool)
    ensures
        r == spec_is_quit(key, ctrl),
{
    match key {
        Key::Char(c) => c == 'q' || (c == 'c' && ctrl),
        Key::Esc => true,
        Key::Other => false,
    }
}


/// The popup header for every state: before any snapshot "Connecting…" in
/// gray; for a snapshot without sessions "No active sessions" in gray;
/// otherwise the snapshot's headline (or "<n> sessions" when it is empty),
/// bold white while waiting, white while busy, gray otherwise. There is
/// one list row per session, or a single placeholder row.
pub proof fn lemma_popup_header(snap: &Snapshot)
    ensures
        spec_headline(None) == "Connecting…"@,
        spec_header_paint(header_kind(None)) == Paint::Gray,
        snap.sessions@.len() == 0 ==> spec_headline(Some(snap)) == "No active sessions"@
            && spec_header_paint(header_kind(Some(snap))) == Paint::Gray && spec_rows(Some(snap)).len()
            == 1,
        (snap.sessions@.len() > 0 && snap.summary.headline@.len() > 0) ==> spec_headline(Some(snap))
            == snap.summary.headline@,
        (snap.sessions@.len() > 0 && snap.summary.headline@.len() == 0) ==> spec_headline(Some(snap))
            == decimal(snap.sessions@.len()) + " sessions"@,
        (snap.sessions@.len() > 0 && (snap.summary.headline_kind@ == "permission"@
            || snap.summary.headline_kind@ == "question"@)) ==> spec_header_paint(header_kind(Some(snap)))
            == Paint::WhiteBold,
        (snap.sessions@.len() > 0 && snap.summary.headline_kind@ == "busy"@) ==> spec_header_paint(
            header_kind(Some(snap)),
        ) == Paint::White,
        (snap.sessions@.len() > 0 && snap.summary.headline_kind@ != "busy"@
            && snap.summary.headline_kind@ != "permission"@ && snap.summary.headline_kind@
            != "question"@) ==> spec_header_paint(header_kind(Some(snap))) == Paint::Gray,
        snap.sessions@.len() > 0 ==> spec_rows(Some(snap)).len() == snap.sessions@.len(),
{
    crate::format::lemma_kind_names_distinct();
    reveal_strlit("idle");
    reveal_strlit("busy");
    reveal_strlit("permission");
    reveal_strlit("question");
    assert("idle"@.len() != "permission"@.len());
    assert("idle"@.len() != "question"@.len());
    assert("idle"@[0] != "busy"@[0]);
}


/// The popup's list and footer: before the first snapshot no rows; for an
/// empty snapshot one placeholder row; otherwise row `i` is session `i`,
/// its glyph painted by status (bold white waiting, white busy, green done,
/// dark gray otherwise), then the plain title, the detail and the age in
/// dark gray. The footer says live (green) or reconnecting (yellow), then
/// the quit hint.
pub proof fn lemma_popup_rows_footer(snap: &Snapshot, i: int, connected: bool)
    ensures
        spec_rows(None) == Seq::<Seq<(Seq<char>, Paint)>>::empty(),
        snap.sessions@.len() == 0 ==> spec_rows(Some(snap)) == seq![
            seq![("  (no active sessions)"@, Paint::DarkGray)],
        ],
        (0 <= i < snap.sessions@.len()) ==> ({
            let e = snap.sessions@[i];
            let st = e.status@;
            let paint = if st == "waiting"@ {
                Paint::WhiteBold
            } else if st == "busy"@ {
                Paint::White
            } else if st == "done"@ {
                Paint::Green
            } else {
                Paint::DarkGray
            };
            spec_rows(Some(snap))[i] == seq![
                (status_glyph(st) + " "@, paint),
                (e.title@, Paint::Plain),
                ("  "@ + e.detail@ + "  "@, Paint::DarkGray),
                ("("@ + e.age_label@ + ")"@, Paint::DarkGray),
            ]
        }),
        spec_footer(connected).len() == 2,
        spec_footer(connected)[0] == if connected {
            ("● live"@, Paint::Green)
        } else {
            ("○ reconnecting…"@, Paint::Yellow)
        },
        spec_footer(connected)[1] == ("   q/Esc quit"@, Paint::DarkGray),
{
}

} // verus!
