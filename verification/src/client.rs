//! Addressing the opencode-sessionbar plugin on 127.0.0.1:<port> and reading
//! its replies. The HTTP and SSE transport lives with the program; what to
//! ask for and how to read the answers is decided here.

use vstd::prelude::*;
use vstd::string::*;

use crate::text::{decimal, trim_start};

verus! {

/// The name the plugin reports on `/health`.
pub const PLUGIN_NAME: &'static str = "opencode-sessionbar";

/// A consumer of the plugin at one local port.
pub struct Client {
    base: String,
}

impl View for Client {
    type V = Seq<char>;

    /// The base URL of the plugin's server.
    closed spec fn view(&self) -> Seq<char> {
        self.base@
    }
}

/// The base URL for a port: the plugin only listens on the loopback address.
pub open spec fn base_url(port: u16) -> Seq<char> {
    "http://127.0.0.1:"@ + decimal(port as nat)
}

impl Client {
    /// The client of the plugin on `127.0.0.1:<port>`.
    pub fn new(port: u16) -> (c: Client)
        ensures
            c@ == base_url(port),
    {
        let mut base = String::from_str("http://127.0.0.1:");
        let p = crate::text::decimal_string(port as u64);
        base.append(p.as_str());
        Client { base }
    }

    /// URL of the snapshot route (`GET /sessions`).
    pub fn sessions_url(&self) -> (r: String)
        ensures
            r@ == self@ + "/sessions"@,
    {
        self.base.clone().concat("/sessions")
    }

    /// URL of the liveness route (`GET /health`).
    pub fn health_url(&self) -> (r: String)
        ensures
            r@ == self@ + "/health"@,
    {
        self.base.clone().concat("/health")
    }

    /// URL of the push route (`GET /sessions/stream`, server-sent events).
    pub fn stream_url(&self) -> (r: String)
        ensures
            r@ == self@ + "/sessions/stream"@,
    {
        self.base.clone().concat("/sessions/stream")
    }
}

/// The `name` that a `/health` body reports: the string value of the
/// `name` member when the body parses as JSON and has one.
pub uninterp spec fn health_name_of(body: Seq<char>) -> Option<Seq<char>>;

/// `serde_json::from_str::<serde_json::Value>` on the body, then its
/// `name` member if that is a string; none when the body is not JSON, has
/// no `name`, or its `name` is not a string. The contract only names the
/// result; it is a function of the body alone.
#[verifier::external_body]
fn health_name(body: &str) -> (r: Option<String>)
    ensures
        crate::format::opt_view(r) == health_name_of(body@),
{
    serde_json::from_str::<serde_json::Value>(body).ok().and_then(|v| v.get("name").and_then(|n| n.as_str()).map(String::from))
}

/// Whether a `/health` reply comes from the plugin: the request succeeded
/// and the body's `name` is the plugin's name.
pub open spec fn spec_healthy_reply(success: bool, body: Seq<char>) -> bool {
    success && health_name_of(body) == Some(PLUGIN_NAME@)
}

/// A `/health` reply proves the plugin is up when the request succeeded and
/// the JSON body's `name` is the plugin's name.
pub fn healthy_reply(success: bool, body: &str) -> (r: bool)
    ensures
        r == spec_healthy_reply(success, body@),
{
    if !success {
        return false;
    }
    match health_name(body) {
        Some(n) => crate::text::str_eq(n.as_str(), PLUGIN_NAME),
        None => false,
    }
}

/// The payload of a server-sent-events line: the text after `data: ` (or
/// `data:`) without leading white space; none for any other line or an
/// empty payload. Each payload is one complete JSON snapshot.
pub open spec fn spec_sse_payload(line: Seq<char>) -> Option<Seq<char>> {
    if "data:"@.is_prefix_of(line) {
        let rest = if "data: "@.is_prefix_of(line) {
            line.skip(6)
        } else {
            line.skip(5)
        };
        if trim_start(rest).len() == 0 {
            None
        } else {
            Some(trim_start(rest))
        }
    } else {
        None
    }
}

/// The JSON payload carried by one line of the SSE stream, if any.
pub fn sse_payload(line: &str) -> (r: Option<String>)
    ensures
        crate::format::opt_view(r) == spec_sse_payload(line@),
{
    proof {
        reveal_strlit("data: ");
        reveal_strlit("data:");
    }
    let rest = if crate::text::starts_with(line, "data: ") {
        crate::text::chars_from(line, 6)
    } else if crate::text::starts_with(line, "data:") {
        crate::text::chars_from(line, 5)
    } else {
        return None;
    };
    proof {
        if "data: "@.is_prefix_of(line@) {
            assert("data:"@.is_prefix_of(line@)) by {
                assert forall|j: int| 0 <= j < 5 implies "data:"@[j] == line@[j] by {
                    assert("data:"@[j] == "data: "@[j]);
                }
            }
        }
    }
    let payload = crate::text::trimmed_start(rest.as_str());
    if payload.as_str().unicode_len() == 0 {
        None
    } else {
        Some(payload)
    }
}


proof fn lemma_trim_start_first(s: Seq<char>)
    ensures
        trim_start(s).len() > 0 ==> !crate::text::is_white(trim_start(s)[0]),
    decreases s.len(),
{
    if s.len() > 0 && crate::text::is_white(s[0]) {
        lemma_trim_start_first(s.drop_first());
    }
}

/// A payload is never empty and never starts with white space.
pub proof fn lemma_sse_payload_trimmed(line: Seq<char>)
    ensures
        spec_sse_payload(line) matches Some(p) ==> p.len() > 0 && !crate::text::is_white(p[0]),
{
    lemma_trim_start_first(line.skip(5));
    lemma_trim_start_first(line.skip(6));
}


proof fn lemma_trim_start_white_prefix(ws: Seq<char>, p: Seq<char>)
    requires
        forall|i: int| 0 <= i < ws.len() ==> crate::text::is_white(#[trigger] ws[i]),
        p.len() > 0,
        !crate::text::is_white(p[0]),
    ensures
        trim_start(ws + p) == p,
    decreases ws.len(),
{
    if ws.len() == 0 {
        assert(ws + p =~= p);
    } else {
        assert((ws + p).drop_first() =~= ws.drop_first() + p);
        assert((ws + p)[0] == ws[0]);
        lemma_trim_start_white_prefix(ws.drop_first(), p);
    }
}

/// A `data:` line hands back its payload: after `data:` or `data: ` and
/// any white space, a payload that starts with a visible character is
/// returned whole; a line that does not start with `data:` carries none.
pub proof fn lemma_sse_payload_of_data_line(ws: Seq<char>, p: Seq<char>, line: Seq<char>)
    requires
        forall|i: int| 0 <= i < ws.len() ==> crate::text::is_white(#[trigger] ws[i]),
        p.len() > 0,
        !crate::text::is_white(p[0]),
    ensures
        spec_sse_payload("data:"@ + ws + p) == Some(p),
        spec_sse_payload("data: "@ + ws + p) == Some(p),
        !"data:"@.is_prefix_of(line) ==> spec_sse_payload(line) is None,
{
    reveal_strlit("data:");
    reveal_strlit("data: ");
    let a = "data:"@ + ws + p;
    let b = "data: "@ + ws + p;
    assert("data:"@.is_prefix_of(a)) by {
        assert forall|j: int| 0 <= j < 5 implies "data:"@[j] == a[j] by {}
    }
    assert("data:"@.is_prefix_of(b)) by {
        assert forall|j: int| 0 <= j < 5 implies "data:"@[j] == b[j] by {
            assert("data:"@[j] == "data: "@[j]);
        }
    }
    assert("data: "@.is_prefix_of(b)) by {
        assert forall|j: int| 0 <= j < 6 implies "data: "@[j] == b[j] by {}
    }
    assert(b.skip(6) =~= ws + p);
    lemma_trim_start_white_prefix(ws, p);
    if "data: "@.is_prefix_of(a) {
        // the sixth character is white space: one more white character before the payload
        assert(a[5] == "data: "@[5]);
        assert(a[5] == ' ');
        let ws2 = ws.drop_first();
        assert(ws.len() > 0) by {
            if ws.len() == 0 {
                assert(a[5] == p[0]);
            }
        }
        assert(a.skip(6) =~= ws2 + p);
        assert forall|i: int| 0 <= i < ws2.len() implies crate::text::is_white(#[trigger] ws2[i]) by {
            assert(ws2[i] == ws[i + 1]);
        }
        lemma_trim_start_white_prefix(ws2, p);
    } else {
        assert(a.skip(5) =~= ws + p);
    }
}

} // verus!
