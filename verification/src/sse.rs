//! The streaming-transport state machine: one long-lived server-sent-
//! events session that announces its message endpoint exactly once and
//! then heartbeats until the connection is closed.
use vstd::prelude::*;
use vstd::string::StringExecFns;
use crate::text::dec_digits;
use crate::text::str_eq;
use crate::text::u16_to_string;

verus! {

/// Seconds between two heartbeat emissions.
pub const HEARTBEAT_INTERVAL_SECS: u64 = 30;

/// The SSE framing of the one-time endpoint announcement.
pub open spec fn endpoint_frame(url: Seq<char>) -> Seq<char> {
    "event: endpoint\ndata: "@ + url + "\n\n"@
}

/// The SSE framing of one comment-framed heartbeat.
pub open spec fn ping_frame() -> Seq<char> {
    ":ping\n\n"@
}

/// The k-th frame a session pushes: the endpoint announcement first,
/// heartbeats ever after.
pub open spec fn sse_event_at(k: nat, url: Seq<char>) -> Seq<char> {
    if k == 0 {
        endpoint_frame(url)
    } else {
        ping_frame()
    }
}

/// The scheme clients must POST back over: plain http for a loopback
/// host, https otherwise.
pub open spec fn spec_scheme(host: Seq<char>) -> Seq<char> {
    if host == "localhost"@ {
        "http"@
    } else {
        "https"@
    }
}

/// The optional `:port` part of the announced URL.
pub open spec fn spec_port_part(port: Option<u16>) -> Seq<char> {
    match port {
        Some(p) => ":"@ + dec_digits(p as nat),
        None => Seq::<char>::empty(),
    }
}

/// The absolute URL a client must POST future messages to.
pub open spec fn spec_endpoint_url(host: Seq<char>, port: Option<u16>) -> Seq<char> {
    spec_scheme(host) + "://"@ + host + spec_port_part(port) + "/mcp"@
}

/// Builds the absolute message-endpoint URL for a connection's host and
/// optional port.
pub fn endpoint_url(host: &str, port: Option<u16>) -> (r: String)
    ensures
        r@ == spec_endpoint_url(host@, port),
{
    let mut s = String::new();
    if str_eq(host, "localhost") {
        s.append("http");
    } else {
        s.append("https");
    }
    s.append("://");
    s.append(host);
    match port {
        Some(p) => {
            s.append(":");
            let digits = u16_to_string(p);
            s.append(digits.as_str());
        },
        None => {},
    }
    s.append("/mcp");
    proof {
        assert(s@ =~= spec_endpoint_url(host@, port));
    }
    s
}

/// One open SSE session. It walks through three phases: not yet
/// announced, heartbeating, closed; the frames it has pushed are
/// counted by the ghost field `emitted`.
pub struct SseSession {
    pub endpoint: String,
    pub announced: bool,
    pub closed: bool,
    pub emitted: Ghost<nat>,
}

impl SseSession {
    /// The announcement has been made exactly when at least one frame
    /// went out.
    pub open spec fn wf(self) -> bool {
        self.announced <==> self.emitted@ > 0
    }

    /// Accepts a connection: computes the endpoint URL the client must
    /// POST to and readies the one-time announcement.
    pub fn accept(host: &str, port: Option<u16>) -> (s: SseSession)
        ensures
            s.wf(),
            !s.closed,
            s.emitted@ == 0,
            s.endpoint@ == spec_endpoint_url(host@, port),
    {
        SseSession {
            endpoint: endpoint_url(host, port),
            announced: false,
            closed: false,
            emitted: Ghost(0),
        }
    }

    /// The next frame to push: the endpoint announcement the first
    /// time, a heartbeat every later time, nothing once closed. The
    /// session never stops producing frames on its own.
    pub fn next_event(&mut self) -> (e: Option<String>)
        requires
            old(self).wf(),
        ensures
            final (self).wf(),
            final (self).endpoint == old(self).endpoint,
            final (self).closed == old(self).closed,
            old(self).closed ==> e is None && final (self).emitted@ == old(self).emitted@,
            !old(self).closed ==> (e matches Some(ev) && ev@ == sse_event_at(
                old(self).emitted@,
                old(self).endpoint@,
            ) && final (self).emitted@ == old(self).emitted@ + 1),
    {
        if self.closed {
            return None;
        }
        if !self.announced {
            self.announced = true;
            self.emitted = Ghost(self.emitted@ + 1);
            let mut s = String::from_str("event: endpoint\ndata: ");
            s.append(self.endpoint.as_str());
            s.append("\n\n");
            proof {
                assert(s@ =~= endpoint_frame(self.endpoint@));
            }
            Some(s)
        } else {
            self.emitted = Ghost(self.emitted@ + 1);
            Some(String::from_str(":ping\n\n"))
        }
    }

    /// A write failure is the cancellation signal: the session is torn
    /// down and pushes nothing further.
    pub fn close(&mut self)
        ensures
            final (self).closed,
            final (self).endpoint == old(self).endpoint,
            final (self).emitted@ == old(self).emitted@,
            old(self).wf() ==> final (self).wf(),
    {
        self.closed = true;
    }
}

/// Law: a session pushes the endpoint announcement as its first frame
/// and only then; every later frame is the heartbeat, and no heartbeat
/// ever carries the endpoint payload.
pub proof fn lemma_one_endpoint_then_heartbeats(url: Seq<char>, k: nat)
    ensures
        sse_event_at(0, url) == endpoint_frame(url),
        k > 0 ==> sse_event_at(k, url) == ping_frame(),
        sse_event_at(k, url) == endpoint_frame(url) ==> k == 0,
        ping_frame() != endpoint_frame(url),
{
    reveal_strlit("event: endpoint\ndata: ");
    reveal_strlit(":ping\n\n");
    reveal_strlit("\n\n");
    assert(endpoint_frame(url).len() == 24 + url.len());
    assert(ping_frame().len() == 7);
}

/// Law: the announced payload is a well-formed absolute URL: it starts
/// with the scheme, its host, and it ends in "/mcp".
pub proof fn lemma_endpoint_url_shape(host: Seq<char>, port: Option<u16>)
    ensures
        spec_endpoint_url(host, port).len() > 4,
        spec_endpoint_url(host, port).skip(spec_endpoint_url(host, port).len() - 4) == "/mcp"@,
        spec_endpoint_url(host, port).take(spec_scheme(host).len() as int + 3) == spec_scheme(host)
            + "://"@,
{
    reveal_strlit("http");
    reveal_strlit("https");
    reveal_strlit("://");
    reveal_strlit("/mcp");
    let u = spec_endpoint_url(host, port);
    assert(u.skip(u.len() - 4) =~= "/mcp"@);
    assert(u.take(spec_scheme(host).len() as int + 3) =~= spec_scheme(host) + "://"@);
}

} // verus!
