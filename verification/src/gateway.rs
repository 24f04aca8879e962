//! The gateway session: what the client does with each event on a
//! connection, and how it carries a session from one connection to the next.

use rand::Rng;
use vstd::prelude::*;
use vstd::string::*;
use crate::fingerprint::{Fingerprint, FingerprintView};
use crate::text::{copy_opt_string, opt_string_view};
use crate::heartbeat::HeartbeatState;
use crate::payload::{
    build_identify_payload, build_resume_payload, seq_or_null, spec_identify, Payload,
    PayloadView, OP_DISPATCH, OP_HEARTBEAT, OP_HEARTBEAT_ACK, OP_HELLO, OP_INVALID_SESSION,
    OP_RECONNECT,
};

verus! {

/// Where a fresh connection goes.
pub const GATEWAY_URL: &'static str = "wss://gateway.discord.gg/?v=10&encoding=json";

/// The query appended to a resume URL.
pub const GATEWAY_QUERY: &'static str = "?v=10&encoding=json";

/// Seconds between two periodic presence updates.
pub const PRESENCE_UPDATE_INTERVAL_SECS: u64 = 300;

/// Heartbeat interval assumed when Hello does not give one, in milliseconds.
pub const DEFAULT_HEARTBEAT_INTERVAL_MS: u64 = 41250;

/// Opcode assumed for a frame without a numeric `op`.
pub const UNKNOWN_OPCODE: u64 = 255;

/// What the client reads from a JSON text frame: `op`, `s`, `t`, and from
/// `d` the fields `heartbeat_interval`, `session_id`, `resume_gateway_url`,
/// or `d` itself as a boolean. A field that is missing or of another JSON
/// type is `None`.
#[derive(Debug, Clone)]
pub struct GatewayFrame {
    pub op: Option<u64>,
    pub seq: Option<i64>,
    pub event_name: Option<String>,
    pub heartbeat_interval: Option<u64>,
    pub session_id: Option<String>,
    pub resume_gateway_url: Option<String>,
    pub resumable: Option<bool>,
}

/// One event on a gateway connection.
#[derive(Debug, Clone)]
pub enum GatewayEvent {
    /// A text frame that parsed as JSON.
    Frame(GatewayFrame),
    /// A text frame that is not JSON.
    Unparsable,
    /// A ping with its data.
    Ping(Vec<u8>),
    /// The server closed the socket.
    Close,
    /// The socket stream ended.
    StreamEnded,
    /// The heartbeat task found its last heartbeat unacknowledged.
    HeartbeatMissed,
    /// Any other frame.
    Other,
}

/// How a connection ended.
#[derive(Debug, Clone)]
pub enum GatewayExit {
    /// Reconnect, resuming the session where one is known.
    Reconnect { new_session_id: Option<String>, new_resume_url: Option<String> },
    /// The session is gone: identify from scratch.
    InvalidSession,
}

/// What the client does in answer to an event.
#[derive(Debug, Clone)]
pub enum GatewayAction {
    /// Nothing.
    Continue,
    /// Send a payload.
    Send(Payload),
    /// Start the heartbeat task with this interval, then send a payload.
    StartHeartbeat { interval_ms: u64, payload: Payload },
    /// Answer a ping with a pong carrying the same data.
    Pong(Vec<u8>),
    /// Leave the connection.
    Exit(GatewayExit),
}

/// The state of one gateway connection.
pub struct Connection {
    pub token: String,
    pub status: String,
    pub fingerprint: Fingerprint,
    /// The session this connection resumes, if any.
    pub existing_session: Option<String>,
    /// The session the server announced on this connection.
    pub session_id: Option<String>,
    /// The resume URL the server announced on this connection.
    pub resume_url: Option<String>,
    pub heartbeat_started: bool,
    pub heartbeat: HeartbeatState,
}

/// The mathematical value of a [`GatewayFrame`].
pub struct GatewayFrameView {
    pub op: Option<u64>,
    pub seq: Option<i64>,
    pub event_name: Option<Seq<char>>,
    pub heartbeat_interval: Option<u64>,
    pub session_id: Option<Seq<char>>,
    pub resume_gateway_url: Option<Seq<char>>,
    pub resumable: Option<bool>,
}

/// The mathematical value of a [`GatewayEvent`].
pub enum GatewayEventView {
    Frame(GatewayFrameView),
    Unparsable,
    Ping(Seq<u8>),
    Close,
    StreamEnded,
    HeartbeatMissed,
    Other,
}

/// The mathematical value of a [`GatewayExit`].
pub enum GatewayExitView {
    Reconnect { new_session_id: Option<Seq<char>>, new_resume_url: Option<Seq<char>> },
    InvalidSession,
}

/// The mathematical value of a [`GatewayAction`].
pub enum GatewayActionView {
    Continue,
    Send(PayloadView),
    StartHeartbeat { interval_ms: u64, payload: PayloadView },
    Pong(Seq<u8>),
    Exit(GatewayExitView),
}

/// The mathematical value of a [`Connection`], its heartbeat state flattened in.
pub struct ConnectionView {
    pub token: Seq<char>,
    pub status: Seq<char>,
    pub fingerprint: FingerprintView,
    pub existing_session: Option<Seq<char>>,
    pub session_id: Option<Seq<char>>,
    pub resume_url: Option<Seq<char>>,
    pub heartbeat_started: bool,
    pub last_seq: i64,
    pub acked: bool,
}

impl View for GatewayFrame {
    type V = GatewayFrameView;

    open spec fn view(&self) -> GatewayFrameView {
        GatewayFrameView {
            op: self.op,
            seq: self.seq,
            event_name: opt_string_view(self.event_name),
            heartbeat_interval: self.heartbeat_interval,
            session_id: opt_string_view(self.session_id),
            resume_gateway_url: opt_string_view(self.resume_gateway_url),
            resumable: self.resumable,
        }
    }
}

impl View for GatewayEvent {
    type V = GatewayEventView;

    open spec fn view(&self) -> GatewayEventView {
        match self {
            GatewayEvent::Frame(f) => GatewayEventView::Frame(f@),
            GatewayEvent::Unparsable => GatewayEventView::Unparsable,
            GatewayEvent::Ping(d) => GatewayEventView::Ping(d@),
            GatewayEvent::Close => GatewayEventView::Close,
            GatewayEvent::StreamEnded => GatewayEventView::StreamEnded,
            GatewayEvent::HeartbeatMissed => GatewayEventView::HeartbeatMissed,
            GatewayEvent::Other => GatewayEventView::Other,
        }
    }
}

impl View for GatewayExit {
    type V = GatewayExitView;

    open spec fn view(&self) -> GatewayExitView {
        match self {
            GatewayExit::Reconnect { new_session_id, new_resume_url } => GatewayExitView::Reconnect {
                new_session_id: opt_string_view(*new_session_id),
                new_resume_url: opt_string_view(*new_resume_url),
            },
            GatewayExit::InvalidSession => GatewayExitView::InvalidSession,
        }
    }
}

impl View for GatewayAction {
    type V = GatewayActionView;

    open spec fn view(&self) -> GatewayActionView {
        match self {
            GatewayAction::Continue => GatewayActionView::Continue,
            GatewayAction::Send(p) => GatewayActionView::Send(p@),
            GatewayAction::StartHeartbeat { interval_ms, payload } => GatewayActionView::StartHeartbeat {
                interval_ms: *interval_ms,
                payload: payload@,
            },
            GatewayAction::Pong(d) => GatewayActionView::Pong(d@),
            GatewayAction::Exit(e) => GatewayActionView::Exit(e@),
        }
    }
}

impl View for Connection {
    type V = ConnectionView;

    open spec fn view(&self) -> ConnectionView {
        ConnectionView {
            token: self.token@,
            status: self.status@,
            fingerprint: self.fingerprint@,
            existing_session: opt_string_view(self.existing_session),
            session_id: opt_string_view(self.session_id),
            resume_url: opt_string_view(self.resume_url),
            heartbeat_started: self.heartbeat_started,
            last_seq: self.heartbeat.last_seq,
            acked: self.heartbeat.acked,
        }
    }
}

/// A string with every trailing `/` removed.
pub open spec fn trim_trailing_slashes(s: Seq<char>) -> Seq<char>
    decreases s.len(),
{
    if s.len() > 0 && s.last() == '/' {
        trim_trailing_slashes(s.drop_last())
    } else {
        s
    }
}

/// The URL to resume at, built from the `resume_gateway_url` of READY.
pub open spec fn spec_resume_url(announced: Seq<char>) -> Seq<char> {
    trim_trailing_slashes(announced) + GATEWAY_QUERY@
}

/// Builds the URL to resume at from the `resume_gateway_url` of READY:
/// trailing slashes dropped, then the gateway version and encoding appended.
pub fn resume_url_from(announced: &str) -> (url: String)
    ensures
        url@ == spec_resume_url(announced@),
{
    let len = announced.unicode_len();
    let mut end = len;
    assert(announced@.subrange(0, end as int) =~= announced@);
    while end > 0 && announced.get_char(end - 1) == '/'
        invariant
            end <= len,
            len == announced@.len(),
            trim_trailing_slashes(announced@) == trim_trailing_slashes(
                announced@.subrange(0, end as int),
            ),
        decreases end,
    {
        assert(announced@.subrange(0, end as int).drop_last() =~= announced@.subrange(
            0,
            end - 1,
        ));
        end = end - 1;
    }
    assert(announced@.subrange(0, end as int) == trim_trailing_slashes(
        announced@.subrange(0, end as int),
    ));
    let trimmed = String::from_str(announced.substring_char(0, end));
    trimmed.concat(GATEWAY_QUERY)
}

/// The view of an `Option` that keeps a replacement where one is given.
pub open spec fn or_keep(new: Option<Seq<char>>, old: Option<Seq<char>>) -> Option<Seq<char>> {
    match new {
        Some(v) => Some(v),
        None => old,
    }
}

/// The exit that leaves this connection for a resumed one.
pub open spec fn reconnect_exit(c: ConnectionView) -> GatewayActionView {
    GatewayActionView::Exit(
        GatewayExitView::Reconnect { new_session_id: c.session_id, new_resume_url: c.resume_url },
    )
}

/// The payload sent after Hello: Resume when this connection carries an
/// existing session, Identify otherwise.
pub open spec fn hello_payload(c: ConnectionView) -> PayloadView {
    match c.existing_session {
        Some(sid) => PayloadView::Resume {
            token: c.token,
            session_id: sid,
            seq: seq_or_null(c.last_seq),
        },
        None => spec_identify(c.token, c.status, c.fingerprint),
    }
}

/// What a text frame does to a connection: its sequence number (if any) is
/// recorded first, then its opcode decides.
pub open spec fn spec_on_frame(c0: ConnectionView, f: GatewayFrameView) -> (
    ConnectionView,
    GatewayActionView,
) {
    let c = match f.seq {
        Some(s) => ConnectionView { last_seq: s, ..c0 },
        None => c0,
    };
    let op = match f.op {
        Some(o) => o,
        None => UNKNOWN_OPCODE,
    };
    if op == OP_HELLO {
        let interval = match f.heartbeat_interval {
            Some(i) => i,
            None => DEFAULT_HEARTBEAT_INTERVAL_MS,
        };
        if c.heartbeat_started {
            (c, GatewayActionView::Send(hello_payload(c)))
        } else {
            (
                ConnectionView { heartbeat_started: true, ..c },
                GatewayActionView::StartHeartbeat { interval_ms: interval, payload: hello_payload(c) },
            )
        }
    } else if op == OP_HEARTBEAT_ACK {
        (ConnectionView { acked: true, ..c }, GatewayActionView::Continue)
    } else if op == OP_DISPATCH {
        if f.event_name == Some("READY"@) {
            (
                ConnectionView {
                    session_id: or_keep(f.session_id, c.session_id),
                    resume_url: match f.resume_gateway_url {
                        Some(u) => Some(spec_resume_url(u)),
                        None => c.resume_url,
                    },
                    ..c
                },
                GatewayActionView::Continue,
            )
        } else {
            (c, GatewayActionView::Continue)
        }
    } else if op == OP_HEARTBEAT {
        (c, GatewayActionView::Send(PayloadView::Heartbeat { seq: seq_or_null(c.last_seq) }))
    } else if op == OP_RECONNECT {
        (c, reconnect_exit(c))
    } else if op == OP_INVALID_SESSION {
        if f.resumable == Some(true) {
            (c, reconnect_exit(c))
        } else {
            (c, GatewayActionView::Exit(GatewayExitView::InvalidSession))
        }
    } else {
        (c, GatewayActionView::Continue)
    }
}

/// What an event does to a connection.
pub open spec fn spec_on_event(c: ConnectionView, e: GatewayEventView) -> (
    ConnectionView,
    GatewayActionView,
) {
    match e {
        GatewayEventView::Frame(f) => spec_on_frame(c, f),
        GatewayEventView::Ping(d) => (c, GatewayActionView::Pong(d)),
        GatewayEventView::Close => (c, reconnect_exit(c)),
        GatewayEventView::StreamEnded => (c, reconnect_exit(c)),
        GatewayEventView::HeartbeatMissed => (c, reconnect_exit(c)),
        GatewayEventView::Unparsable => (c, GatewayActionView::Continue),
        GatewayEventView::Other => (c, GatewayActionView::Continue),
    }
}

impl Connection {
    /// A new connection for a token, a status and a fingerprint, resuming
    /// `existing_session` if one is given.
    pub fn new(
        token: String,
        status: String,
        fingerprint: Fingerprint,
        existing_session: Option<String>,
    ) -> (c: Connection)
        ensures
            c@ == (ConnectionView {
                token: token@,
                status: status@,
                fingerprint: fingerprint@,
                existing_session: opt_string_view(existing_session),
                session_id: None,
                resume_url: None,
                heartbeat_started: false,
                last_seq: -1i64,
                acked: true,
            }),
    {
        Connection {
            token,
            status,
            fingerprint,
            existing_session,
            session_id: None,
            resume_url: None,
            heartbeat_started: false,
            heartbeat: HeartbeatState::new(),
        }
    }

    /// The exit that leaves this connection for a resumed one.
    fn reconnect(&self) -> (a: GatewayAction)
        ensures
            a@ == reconnect_exit(self@),
    {
        GatewayAction::Exit(
            GatewayExit::Reconnect {
                new_session_id: copy_opt_string(&self.session_id),
                new_resume_url: copy_opt_string(&self.resume_url),
            },
        )
    }

    /// The payload sent after Hello.
    fn hello(&self) -> (p: Payload)
        ensures
            p@ == hello_payload(self@),
    {
        match &self.existing_session {
            Some(sid) => build_resume_payload(
                self.token.as_str(),
                sid.as_str(),
                self.heartbeat.last_seq,
            ),
            None => build_identify_payload(
                self.token.as_str(),
                self.status.as_str(),
                &self.fingerprint,
            ),
        }
    }

    /// Handles a text frame.
    pub fn on_frame(&mut self, frame: GatewayFrame) -> (a: GatewayAction)
        ensures
            (final(self)@, a@) == spec_on_frame(old(self)@, frame@),
            frame.op == Some(OP_INVALID_SESSION) && frame.resumable == Some(true) ==> a@
                == GatewayActionView::Exit(
                GatewayExitView::Reconnect {
                    new_session_id: opt_string_view(old(self).session_id),
                    new_resume_url: opt_string_view(old(self).resume_url),
                },
            ),
            frame.op == Some(OP_RECONNECT) ==> a@ == GatewayActionView::Exit(
                GatewayExitView::Reconnect {
                    new_session_id: opt_string_view(old(self).session_id),
                    new_resume_url: opt_string_view(old(self).resume_url),
                },
            ),
    {
        if let Some(s) = frame.seq {
            self.heartbeat.record_sequence(s);
        }
        let op = match frame.op {
            Some(o) => o,
            None => UNKNOWN_OPCODE,
        };
        if op == OP_HELLO {
            let interval = match frame.heartbeat_interval {
                Some(i) => i,
                None => DEFAULT_HEARTBEAT_INTERVAL_MS,
            };
            let payload = self.hello();
            if self.heartbeat_started {
                GatewayAction::Send(payload)
            } else {
                self.heartbeat_started = true;
                GatewayAction::StartHeartbeat { interval_ms: interval, payload }
            }
        } else if op == OP_HEARTBEAT_ACK {
            self.heartbeat.record_ack();
            GatewayAction::Continue
        } else if op == OP_DISPATCH {
            let is_ready = match &frame.event_name {
                Some(name) => *name == String::from_str("READY"),
                None => false,
            };
            if is_ready {
                if let Some(sid) = frame.session_id {
                    self.session_id = Some(sid);
                }
                if let Some(url) = &frame.resume_gateway_url {
                    self.resume_url = Some(resume_url_from(url.as_str()));
                }
            }
            GatewayAction::Continue
        } else if op == OP_HEARTBEAT {
            GatewayAction::Send(self.heartbeat.heartbeat_payload())
        } else if op == OP_RECONNECT {
            self.reconnect()
        } else if op == OP_INVALID_SESSION {
            let resumable = match frame.resumable {
                Some(b) => b,
                None => false,
            };
            if resumable {
                self.reconnect()
            } else {
                GatewayAction::Exit(GatewayExit::InvalidSession)
            }
        } else {
            GatewayAction::Continue
        }
    }

    /// Handles one event on the connection.
    pub fn on_event(&mut self, event: GatewayEvent) -> (a: GatewayAction)
        ensures
            (final(self)@, a@) == spec_on_event(old(self)@, event@),
    {
        match event {
            GatewayEvent::Frame(f) => self.on_frame(f),
            GatewayEvent::Ping(d) => GatewayAction::Pong(d),
            GatewayEvent::Close => self.reconnect(),
            GatewayEvent::StreamEnded => self.reconnect(),
            GatewayEvent::HeartbeatMissed => self.reconnect(),
            GatewayEvent::Unparsable => GatewayAction::Continue,
            GatewayEvent::Other => GatewayAction::Continue,
        }
    }
}


/// How a connection attempt ended.
#[derive(Debug, Clone)]
pub enum ConnectionOutcome {
    /// The connection ran and was left.
    Exited(GatewayExit),
    /// The connection failed (connect, read or send error).
    Failed,
}

/// The mathematical value of a [`ConnectionOutcome`].
pub enum ConnectionOutcomeView {
    Exited(GatewayExitView),
    Failed,
}

impl View for ConnectionOutcome {
    type V = ConnectionOutcomeView;

    open spec fn view(&self) -> ConnectionOutcomeView {
        match self {
            ConnectionOutcome::Exited(e) => ConnectionOutcomeView::Exited(e@),
            ConnectionOutcome::Failed => ConnectionOutcomeView::Failed,
        }
    }
}

/// Shortest pause before reconnecting after a connection was left, in milliseconds.
pub const MIN_RECONNECT_DELAY_MS: u64 = 1000;

/// Longest pause before reconnecting after a connection was left, in milliseconds.
pub const MAX_RECONNECT_DELAY_MS: u64 = 5000;

/// Pause before retrying after a failed connection, in milliseconds.
pub const FAILURE_RETRY_DELAY_MS: u64 = 5000;

/// What the client carries from one connection to the next.
pub struct SessionMemory {
    pub session_id: Option<String>,
    pub resume_url: Option<String>,
}

/// The mathematical value of a [`SessionMemory`].
pub struct SessionMemoryView {
    pub session_id: Option<Seq<char>>,
    pub resume_url: Option<Seq<char>>,
}

impl View for SessionMemory {
    type V = SessionMemoryView;

    open spec fn view(&self) -> SessionMemoryView {
        SessionMemoryView {
            session_id: opt_string_view(self.session_id),
            resume_url: opt_string_view(self.resume_url),
        }
    }
}

/// The URL of the next connection: the resume URL if one is known.
pub open spec fn spec_connection_url(m: SessionMemoryView) -> Seq<char> {
    match m.resume_url {
        Some(u) => u,
        None => GATEWAY_URL@,
    }
}

/// The memory after a connection: a reconnect keeps what it does not
/// replace, an invalid session forgets everything, a failure changes nothing.
pub open spec fn spec_after_outcome(m: SessionMemoryView, o: ConnectionOutcomeView) -> SessionMemoryView {
    match o {
        ConnectionOutcomeView::Exited(GatewayExitView::Reconnect { new_session_id, new_resume_url }) => {
            SessionMemoryView {
                session_id: or_keep(new_session_id, m.session_id),
                resume_url: or_keep(new_resume_url, m.resume_url),
            }
        },
        ConnectionOutcomeView::Exited(GatewayExitView::InvalidSession) => SessionMemoryView {
            session_id: None,
            resume_url: None,
        },
        ConnectionOutcomeView::Failed => m,
    }
}

/// The pause after a connection, given the random pause drawn for a left connection.
pub open spec fn spec_pause(o: ConnectionOutcomeView, random_delay_ms: u64) -> u64 {
    match o {
        ConnectionOutcomeView::Exited(_) => random_delay_ms,
        ConnectionOutcomeView::Failed => FAILURE_RETRY_DELAY_MS,
    }
}

/// Calls `rand::Rng::gen_range(1000..=5000)` on the thread-local generator.
/// The contract claims only that the value lies in the range.
#[verifier::external_body]
fn reconnect_delay_ms() -> (d: u64)
    ensures
        MIN_RECONNECT_DELAY_MS <= d <= MAX_RECONNECT_DELAY_MS,
{
    rand::thread_rng().gen_range(1000..=5000)
}

impl SessionMemory {
    /// Nothing known yet: the first connection identifies at the default URL.
    pub fn new() -> (m: SessionMemory)
        ensures
            m@ == (SessionMemoryView { session_id: None, resume_url: None }),
    {
        SessionMemory { session_id: None, resume_url: None }
    }

    /// The URL of the next connection.
    pub fn connection_url(&self) -> (url: String)
        ensures
            url@ == spec_connection_url(self@),
    {
        match &self.resume_url {
            Some(u) => u.clone(),
            None => String::from_str(GATEWAY_URL),
        }
    }

    /// The session that the next connection resumes, if any.
    pub fn session_to_resume(&self) -> (s: Option<String>)
        ensures
            opt_string_view(s) == self@.session_id,
    {
        copy_opt_string(&self.session_id)
    }

    /// Records how a connection ended and returns the pause before the next
    /// one, given the random pause drawn for a left connection.
    pub fn apply_outcome(&mut self, outcome: ConnectionOutcome, random_delay_ms: u64) -> (pause_ms: u64)
        ensures
            final(self)@ == spec_after_outcome(old(self)@, outcome@),
            pause_ms == spec_pause(outcome@, random_delay_ms),
            outcome@ matches ConnectionOutcomeView::Exited(
                GatewayExitView::Reconnect { new_session_id, new_resume_url },
            ) ==> (new_session_id matches Some(sid) ==> final(self)@.session_id == Some(sid)) && (
            new_resume_url matches Some(u) ==> final(self)@.resume_url == Some(u)),
    {
        match outcome {
            ConnectionOutcome::Exited(GatewayExit::Reconnect { new_session_id, new_resume_url }) => {
                if new_session_id.is_some() {
                    self.session_id = new_session_id;
                }
                if new_resume_url.is_some() {
                    self.resume_url = new_resume_url;
                }
                random_delay_ms
            },
            ConnectionOutcome::Exited(GatewayExit::InvalidSession) => {
                self.session_id = None;
                self.resume_url = None;
                random_delay_ms
            },
            ConnectionOutcome::Failed => FAILURE_RETRY_DELAY_MS,
        }
    }

    /// Records how a connection ended and returns the pause before the next
    /// one: one to five seconds, drawn at random, after a left connection;
    /// five seconds after a failure.
    pub fn after_connection(&mut self, outcome: ConnectionOutcome) -> (pause_ms: u64)
        ensures
            final(self)@ == spec_after_outcome(old(self)@, outcome@),
            outcome is Failed ==> pause_ms == FAILURE_RETRY_DELAY_MS,
            outcome is Exited ==> MIN_RECONNECT_DELAY_MS <= pause_ms <= MAX_RECONNECT_DELAY_MS,
    {
        let random = reconnect_delay_ms();
        self.apply_outcome(outcome, random)
    }
}

/// After an invalid session the client starts over: the next connection
/// goes to the default gateway URL and identifies instead of resuming.
pub proof fn lemma_invalid_session_starts_over(m: SessionMemoryView)
    ensures
        spec_connection_url(
            spec_after_outcome(m, ConnectionOutcomeView::Exited(GatewayExitView::InvalidSession)),
        ) == GATEWAY_URL@,
        spec_after_outcome(
            m,
            ConnectionOutcomeView::Exited(GatewayExitView::InvalidSession),
        ).session_id is None,
{
}

/// A reconnect never forgets a known session or resume URL: what the left
/// connection did not learn is kept from before.
pub proof fn lemma_reconnect_keeps_session(
    m: SessionMemoryView,
    new_session_id: Option<Seq<char>>,
    new_resume_url: Option<Seq<char>>,
)
    ensures
        ({
            let after = spec_after_outcome(
                m,
                ConnectionOutcomeView::Exited(
                    GatewayExitView::Reconnect { new_session_id, new_resume_url },
                ),
            );
            &&& m.session_id is Some ==> after.session_id is Some
            &&& m.resume_url is Some ==> after.resume_url is Some
            &&& new_session_id is None ==> after.session_id == m.session_id
            &&& new_resume_url is None ==> after.resume_url == m.resume_url
            &&& new_session_id matches Some(sid) ==> after.session_id == Some(sid)
            &&& new_resume_url matches Some(u) ==> after.resume_url == Some(u)
        }),
{
}

/// The heartbeat task is started once per connection: a later Hello on the
/// same connection only sends its payload again.
pub proof fn lemma_heartbeat_started_once(c: ConnectionView, f: GatewayFrameView)
    requires
        c.heartbeat_started,
    ensures
        spec_on_frame(c, f).0.heartbeat_started,
        !(spec_on_frame(c, f).1 is StartHeartbeat),
{
}

/// After Hello the client resumes exactly when the connection carries a
/// session, and the Resume carries the sequence number current after the Hello.
pub proof fn lemma_hello_resumes_known_session(c: ConnectionView, f: GatewayFrameView)
    requires
        f.op == Some(OP_HELLO),
    ensures
        ({
            let (c2, a) = spec_on_frame(c, f);
            let p = match a {
                GatewayActionView::Send(p) => p,
                GatewayActionView::StartHeartbeat { payload, .. } => payload,
                _ => PayloadView::Heartbeat { seq: None },
            };
            &&& (a is Send || a is StartHeartbeat)
            &&& (p is Resume <==> c.existing_session is Some)
            &&& (p is Identify <==> c.existing_session is None)
            &&& p is Resume ==> p->Resume_seq == seq_or_null(c2.last_seq)
        }),
{
}

/// A resumable Invalid Session leaves the connection exactly as a Reconnect
/// request or a closed socket does: with the session id and resume URL
/// recorded on it, so that the next connection resumes.
pub proof fn lemma_resumable_invalid_session_resumes(c: ConnectionView, f: GatewayFrameView, g: GatewayFrameView)
    requires
        f.op == Some(OP_INVALID_SESSION),
        f.resumable == Some(true),
        g.op == Some(OP_RECONNECT),
        f.seq is None,
        g.seq is None,
    ensures
        spec_on_frame(c, f).1 == GatewayActionView::Exit(
            GatewayExitView::Reconnect { new_session_id: c.session_id, new_resume_url: c.resume_url },
        ),
        spec_on_frame(c, f).1 == spec_on_frame(c, g).1,
        spec_on_frame(c, f).1 == spec_on_event(c, GatewayEventView::Close).1,
        spec_on_frame(c, f).0 == c,
{
}

/// A Reconnect request, a closed socket and a missed heartbeat all leave with
/// the session id and resume URL that the connection has recorded.
pub proof fn lemma_leaving_carries_session(c: ConnectionView, g: GatewayFrameView)
    requires
        g.op == Some(OP_RECONNECT),
    ensures
        ({
            let c2 = spec_on_frame(c, g).0;
            spec_on_frame(c, g).1 == GatewayActionView::Exit(
                GatewayExitView::Reconnect { new_session_id: c2.session_id, new_resume_url: c2.resume_url },
            )
        }),
        c.session_id == spec_on_frame(c, g).0.session_id,
        spec_on_event(c, GatewayEventView::Close).1 == GatewayActionView::Exit(
            GatewayExitView::Reconnect { new_session_id: c.session_id, new_resume_url: c.resume_url },
        ),
        spec_on_event(c, GatewayEventView::HeartbeatMissed).1 == GatewayActionView::Exit(
            GatewayExitView::Reconnect { new_session_id: c.session_id, new_resume_url: c.resume_url },
        ),
{
}

/// Every frame's sequence number is recorded before anything else happens,
/// and nothing but a sequence number changes it.
pub proof fn lemma_sequence_recorded(c: ConnectionView, f: GatewayFrameView)
    ensures
        f.seq matches Some(s) ==> spec_on_frame(c, f).0.last_seq == s,
        f.seq is None ==> spec_on_frame(c, f).0.last_seq == c.last_seq,
{
}

} // verus!
