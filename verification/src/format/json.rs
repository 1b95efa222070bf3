//! The raw snapshot as canonical JSON (serde_json's compact form, object
//! keys in alphabetical order), every field included. When the plugin is unreachable, an explicit empty
//! snapshot.

use vstd::prelude::*;
use vstd::string::*;

use crate::json_text::json_quoted;
use crate::model::{SessionEntry, Snapshot};
use crate::text::int_decimal;

verus! {

/// The `mode` member (with its leading comma) of a known agent; nothing
/// when the agent is unknown, so that decoding gives `None` back.
pub open spec fn mode_member(mode: Option<String>) -> Seq<char> {
    match mode {
        Some(m) => ",\"mode\":"@ + json_quoted(m@),
        None => Seq::empty(),
    }
}

/// One session object: every field of the session.
pub open spec fn session_object(e: SessionEntry) -> Seq<char> {
    "{\"ageLabel\":"@ + json_quoted(e.age_label@) + ",\"detail\":"@ + json_quoted(e.detail@)
        + ",\"id\":"@ + json_quoted(e.id@) + mode_member(e.mode) + ",\"status\":"@ + json_quoted(e.status@)
        + ",\"title\":"@ + json_quoted(e.title@) + ",\"updated\":"@ + int_decimal(e.updated as int)
        + "}"@
}

/// The session objects separated by commas.
pub open spec fn session_items(sessions: Seq<SessionEntry>) -> Seq<char>
    decreases sessions.len(),
{
    if sessions.len() == 0 {
        Seq::empty()
    } else if sessions.len() == 1 {
        session_object(sessions[0])
    } else {
        session_items(sessions.drop_last()) + ","@ + session_object(sessions.last())
    }
}

/// The whole snapshot object: every field of the snapshot.
pub open spec fn snapshot_object(s: &Snapshot) -> Seq<char> {
    "{\"at\":"@ + int_decimal(s.at as int) + ",\"sessions\":["@ + session_items(s.sessions@)
        + "],\"summary\":{\"busy\":"@ + int_decimal(s.summary.busy as int) + ",\"headline\":"@
        + json_quoted(s.summary.headline@) + ",\"headlineKind\":"@ + json_quoted(
        s.summary.headline_kind@,
    ) + ",\"idle\":"@ + int_decimal(s.summary.idle as int) + mode_member(s.summary.mode)
        + ",\"total\":"@ + int_decimal(
        s.summary.total as int,
    ) + ",\"waiting\":"@ + int_decimal(s.summary.waiting as int) + "}}"@
}

/// The empty snapshot written when the plugin is unreachable.
pub open spec fn unreachable_object() -> Seq<char> {
    "{\"at\":0,\"sessions\":[],\"summary\":{\"busy\":0,\"headline\":\"\",\"headlineKind\":\"idle\",\"idle\":0,\"total\":0,\"waiting\":0}}"@
}

/// The snapshot object, or the empty one for an unreachable plugin.
pub open spec fn spec_render(snap: Option<&Snapshot>) -> Seq<char> {
    match snap {
        Some(s) => snapshot_object(s),
        None => unreachable_object(),
    }
}

fn push_mode_member(out: &mut String, mode: &Option<String>)
    ensures
        final(out)@ == old(out)@ + mode_member(*mode),
{
    match mode {
        Some(m) => {
            out.append(",\"mode\":");
            let q = crate::json_text::json_string(m.as_str());
            out.append(q.as_str());
        },
        None => {},
    }
}

fn session_json(e: &SessionEntry) -> (r: String)
    ensures
        r@ == session_object(*e),
{
    let mut out = String::from_str("{\"ageLabel\":");
    let a = crate::json_text::json_string(e.age_label.as_str());
    out.append(a.as_str());
    out.append(",\"detail\":");
    let d = crate::json_text::json_string(e.detail.as_str());
    out.append(d.as_str());
    out.append(",\"id\":");
    let i = crate::json_text::json_string(e.id.as_str());
    out.append(i.as_str());
    push_mode_member(&mut out, &e.mode);
    out.append(",\"status\":");
    let s = crate::json_text::json_string(e.status.as_str());
    out.append(s.as_str());
    out.append(",\"title\":");
    let t = crate::json_text::json_string(e.title.as_str());
    out.append(t.as_str());
    out.append(",\"updated\":");
    let u = crate::json_text::json_int(e.updated);
    out.append(u.as_str());
    out.append("}");
    out
}

/// The snapshot JSON.
pub fn render(snap: Option<&Snapshot>) -> (r: String)
    ensures
        r@ == spec_render(snap),
{
    let s = match snap {
        Some(s) => s,
        None => {
            return String::from_str(
                "{\"at\":0,\"sessions\":[],\"summary\":{\"busy\":0,\"headline\":\"\",\"headlineKind\":\"idle\",\"idle\":0,\"total\":0,\"waiting\":0}}",
            )
        },
    };
    let mut out = String::from_str("{\"at\":");
    let at = crate::json_text::json_int(s.at);
    out.append(at.as_str());
    out.append(",\"sessions\":[");
    let ghost head = out@;
    let n = s.sessions.len();
    let mut i: usize = 0;
    while i < n
        invariant
            n == s.sessions@.len(),
            i <= n,
            out@ == head + session_items(s.sessions@.take(i as int)),
        decreases n - i,
    {
        if i > 0 {
            out.append(",");
        }
        let obj = session_json(&s.sessions[i]);
        out.append(obj.as_str());
        assert(s.sessions@.take(i + 1).drop_last() =~= s.sessions@.take(i as int));
        i = i + 1;
    }
    assert(s.sessions@.take(n as int) =~= s.sessions@);
    out.append("],\"summary\":{\"busy\":");
    let b = crate::json_text::json_int(s.summary.busy as i64);
    out.append(b.as_str());
    out.append(",\"headline\":");
    let h = crate::json_text::json_string(s.summary.headline.as_str());
    out.append(h.as_str());
    out.append(",\"headlineKind\":");
    let k = crate::json_text::json_string(s.summary.headline_kind.as_str());
    out.append(k.as_str());
    out.append(",\"idle\":");
    let d = crate::json_text::json_int(s.summary.idle as i64);
    out.append(d.as_str());
    push_mode_member(&mut out, &s.summary.mode);
    out.append(",\"total\":");
    let t = crate::json_text::json_int(s.summary.total as i64);
    out.append(t.as_str());
    out.append(",\"waiting\":");
    let w = crate::json_text::json_int(s.summary.waiting as i64);
    out.append(w.as_str());
    out.append("}}");
    out
}

} // verus!
