use vstd::prelude::*;

use crate::config::Config;
use crate::dispatch::ToolCallResult;
use crate::session::{accepts_inbound, session_wf, spec_accept, spec_accept_ok, spec_drain,
    spec_finish, spec_finish_ok, ResultEnvelope, Session, SessionState};
use crate::text::{spec_digits, u32_to_decimal};

verus! {

/// Path of the long-lived outbound event stream endpoint.
pub fn sse_path() -> (s: &'static str)
    ensures
        s@ == "/sse"@,
{
    "/sse"
}

/// Path of the endpoint inbound tool-call messages are posted to.
pub fn post_path() -> (s: &'static str)
    ensures
        s@ == "/message"@,
{
    "/message"
}

/// The loopback bind address for the configured port.
pub open spec fn spec_bind_address(port: u16) -> Seq<char> {
    "127.0.0.1:"@ + spec_digits(port as nat)
}

/// Renders the loopback bind address for the configured port.
pub fn bind_address(port: u16) -> (s: String)
    ensures
        s@ == spec_bind_address(port),
{
    let mut s = String::from_str("127.0.0.1:");
    let digits = u32_to_decimal(port as u32);
    s.append(digits.as_str());
    s
}

/// The cross-origin policy the server applies: every origin and method, the
/// two headers clients send, and no credentials.
pub struct CorsPolicy {
    pub allow_any_origin: bool,
    pub allow_any_method: bool,
    pub allowed_headers: Vec<String>,
    pub allow_credentials: bool,
}

/// The permissive cross-origin policy this server always uses.
pub fn cors_policy() -> (p: CorsPolicy)
    ensures
        p.allow_any_origin,
        p.allow_any_method,
        !p.allow_credentials,
        p.allowed_headers@.len() == 2,
        p.allowed_headers@[0]@ == "content-type"@,
        p.allowed_headers@[1]@ == "authorization"@,
{
    let mut headers: Vec<String> = Vec::new();
    headers.push(String::from_str("content-type"));
    headers.push(String::from_str("authorization"));
    CorsPolicy {
        allow_any_origin: true,
        allow_any_method: true,
        allowed_headers: headers,
        allow_credentials: false,
    }
}

/// The streaming server: the shared read-only configuration, whether the
/// listener still accepts connections, whether the process-wide shutdown
/// token has fired, and the per-client sessions.
pub struct StreamingServer {
    pub config: Config,
    pub accepting: bool,
    pub cancelled: bool,
    pub sessions: Vec<Session>,
}

/// Well-formedness: every session is well-formed; once the shutdown token
/// has fired the listener accepts nothing and every session has left the
/// `Connecting` and `Open` states.
pub open spec fn server_wf(s: StreamingServer) -> bool {
    &&& (forall|i: int| 0 <= i < s.sessions@.len() ==> (#[trigger] s.sessions@[i]).wf())
    &&& (s.cancelled ==> !s.accepting)
    &&& (s.cancelled ==> forall|i: int|
        0 <= i < s.sessions@.len() ==> !accepts_inbound((#[trigger] s.sessions@[i])@) && !((
        s.sessions@[i])@.state is Connecting))
}

impl StreamingServer {
    /// A freshly started server: listening, not cancelled, no sessions yet.
    pub fn new(config: Config) -> (s: StreamingServer)
        ensures
            server_wf(s),
            s.config == config,
            s.accepting,
            !s.cancelled,
            s.sessions@.len() == 0,
    {
        StreamingServer { config, accepting: true, cancelled: false, sessions: Vec::new() }
    }

    /// Registers one new client connection, if the listener still accepts:
    /// the new session is open and nothing is in flight on it. Returns the
    /// new session's index.
    pub fn connect(&mut self) -> (r: Option<usize>)
        requires
            server_wf(*old(self)),
        ensures
            server_wf(*final(self)),
            r is Some <==> old(self).accepting,
            final(self).accepting == old(self).accepting,
            final(self).cancelled == old(self).cancelled,
            final(self).config == old(self).config,
            (r matches Some(i) ==> i == old(self).sessions@.len() && final(self).sessions@.len()
                == old(self).sessions@.len() + 1 && (final(self).sessions@[i as int])@.state is Open
                && (final(self).sessions@[i as int])@.pending.len() == 0),
            r is None ==> final(self).sessions@ == old(self).sessions@,
            forall|j: int|
                0 <= j < old(self).sessions@.len() ==> final(self).sessions@[j] == old(
                    self,
                ).sessions@[j],
    {
        if !self.accepting {
            return None;
        }
        let idx = self.sessions.len();
        let mut s = Session::new();
        s.open();
        self.sessions.push(s);
        Some(idx)
    }

    /// Fires the shutdown token: the listener stops accepting connections
    /// and every session begins draining — open sessions with work in flight
    /// keep it, everything else closes.
    pub fn cancel(&mut self)
        requires
            server_wf(*old(self)),
        ensures
            server_wf(*final(self)),
            final(self).cancelled,
            !final(self).accepting,
            final(self).config == old(self).config,
            final(self).sessions@.len() == old(self).sessions@.len(),
            forall|j: int|
                0 <= j < old(self).sessions@.len() ==> (#[trigger] final(self).sessions@[j])@
                    == spec_drain((old(self).sessions@[j])@),
    {
        self.accepting = false;
        self.cancelled = true;
        let n = self.sessions.len();
        let mut i: usize = 0;
        while i < n
            invariant
                server_wf(*old(self)),
                n == self.sessions@.len(),
                n == old(self).sessions@.len(),
                i <= n,
                self.accepting == false,
                self.cancelled == true,
                self.config == old(self).config,
                forall|j: int|
                    0 <= j < i ==> (#[trigger] self.sessions@[j])@ == spec_drain(
                        (old(self).sessions@[j])@,
                    ),
                forall|j: int| i <= j < n ==> self.sessions@[j] == old(self).sessions@[j],
            decreases n - i,
        {
            let s = &mut self.sessions[i];
            s.begin_drain();
            i += 1;
        }
    }

    /// Routes one inbound tool call with correlation token `rid` to session
    /// `idx`. Returns whether the session accepted it; after the shutdown
    /// token has fired nothing is accepted.
    pub fn route_inbound(&mut self, idx: usize, rid: u64) -> (accepted: bool)
        requires
            server_wf(*old(self)),
            idx < old(self).sessions@.len(),
        ensures
            server_wf(*final(self)),
            accepted == spec_accept_ok((old(self).sessions@[idx as int])@, rid),
            (final(self).sessions@[idx as int])@ == spec_accept(
                (old(self).sessions@[idx as int])@,
                rid,
            ),
            old(self).cancelled ==> !accepted,
            final(self).accepting == old(self).accepting,
            final(self).cancelled == old(self).cancelled,
            final(self).config == old(self).config,
            final(self).sessions@.len() == old(self).sessions@.len(),
            forall|j: int|
                0 <= j < old(self).sessions@.len() && j != idx ==> final(self).sessions@[j] == old(
                    self,
                ).sessions@[j],
    {
        let s = &mut self.sessions[idx];
        s.accept(rid)
    }

    /// Completes the dispatch with token `rid` on session `idx`, handing the
    /// result envelope for the session's outbound stream. In-flight
    /// dispatches complete and deliver even while the session drains.
    pub fn finish_inbound(&mut self, idx: usize, rid: u64, result: ToolCallResult) -> (r: Option<
        ResultEnvelope,
    >)
        requires
            server_wf(*old(self)),
            idx < old(self).sessions@.len(),
        ensures
            server_wf(*final(self)),
            r is Some <==> spec_finish_ok((old(self).sessions@[idx as int])@, rid),
            (r matches Some(env) ==> env.request_id == rid && env.result == result),
            (final(self).sessions@[idx as int])@ == spec_finish(
                (old(self).sessions@[idx as int])@,
                rid,
            ),
            final(self).accepting == old(self).accepting,
            final(self).cancelled == old(self).cancelled,
            final(self).config == old(self).config,
            final(self).sessions@.len() == old(self).sessions@.len(),
            forall|j: int|
                0 <= j < old(self).sessions@.len() && j != idx ==> final(self).sessions@[j] == old(
                    self,
                ).sessions@[j],
    {
        let s = &mut self.sessions[idx];
        s.finish(rid, result)
    }
}

/// Law: once the shutdown token has fired, the listener takes no new
/// connection and no session on the server accepts a new inbound tool call.
pub proof fn lemma_cancelled_server_accepts_nothing(s: StreamingServer, i: int, rid: u64)
    requires
        server_wf(s),
        s.cancelled,
        0 <= i < s.sessions@.len(),
    ensures
        !s.accepting,
        !spec_accept_ok((s.sessions@[i])@, rid),
{
}

} // verus!
