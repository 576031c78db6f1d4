//! The decisions of a client connection: call admission, the registry of
//! calls in flight, the handling of inbound frames, the end of a session,
//! explicit shutdown, and the reconnect supervisor. The runtime performs
//! the I/O each decision asks for and reports back what happened.

use vstd::prelude::*;

use crate::config::ConnectionState;
use crate::discovery::{Capabilities, CompatibilityMode};
use crate::error::{is_protocol_with, Error, RequestId};
use crate::events::{
    decode_event, event_of, normalize_notification, normalize_spec, world_supported_by, Event,
    RawData, RawNotification,
};
use crate::json::JsonValue;
use crate::jsonrpc::{
    build_request, inbound_text_spec, opt_json_view, parse_inbound, request_json,
    Inbound, InboundData,
};
use crate::pending::{ids_of, successor, PendingData, PendingRequests};
use crate::reconnect::{delay_spec, ReconnectPolicy};
use crate::text::str_eq;
use crate::time::Duration;

verus! {

/// The state shared by every handle of one client.
#[derive(Debug)]
pub struct Session {
    state: ConnectionState,
    generation: u64,
    shutdown_requested: bool,
    outbound_open: bool,
    capabilities: Option<Capabilities>,
    pending: PendingRequests,
    compatibility_mode: CompatibilityMode,
    reconnect_policy: ReconnectPolicy,
}

/// The content of a session: its lifecycle state, the generation of its
/// current socket session, whether shutdown was requested, whether the
/// outbound queue accepts requests, the cached discovery snapshot, the
/// calls in flight, and its fixed policies.
#[verifier::ext_equal]
pub struct SessionData {
    pub state: ConnectionState,
    pub generation: u64,
    pub shutdown_requested: bool,
    pub outbound_open: bool,
    pub capabilities: Option<Capabilities>,
    pub pending: PendingData,
    pub compatibility_mode: CompatibilityMode,
    pub reconnect_policy: ReconnectPolicy,
}

impl View for Session {
    type V = SessionData;

    closed spec fn view(&self) -> SessionData {
        SessionData {
            state: self.state,
            generation: self.generation,
            shutdown_requested: self.shutdown_requested,
            outbound_open: self.outbound_open,
            capabilities: self.capabilities,
            pending: self.pending@,
            compatibility_mode: self.compatibility_mode,
            reconnect_policy: self.reconnect_policy,
        }
    }
}

/// Why a call is refused before anything is sent.
pub enum Refusal {
    Reconnecting,
    Closed,
    DiscoveryRequired,
    UnsupportedMethod,
}

/// `e` is the error that reports refusal `r` of `method`.
pub open spec fn refused_with(e: Error, r: Refusal, method: Seq<char>) -> bool {
    match r {
        Refusal::Reconnecting => e == Error::Reconnecting,
        Refusal::Closed => e == Error::Closed,
        Refusal::DiscoveryRequired => e == Error::DiscoveryRequired,
        Refusal::UnsupportedMethod => e matches Error::UnsupportedMethod { method: m } && m@
            == method,
    }
}

/// Calls are accepted only while connected: `Reconnecting` while a
/// reconnect is under way, `Closed` once closing, closed or failed.
pub open spec fn admission(state: ConnectionState) -> Option<Refusal> {
    match state {
        ConnectionState::Connected => None,
        ConnectionState::Reconnecting => Some(Refusal::Reconnecting),
        _ => Some(Refusal::Closed),
    }
}

/// The error of a call whose transport went away.
pub open spec fn unavailable(state: ConnectionState) -> Refusal {
    if state == ConnectionState::Reconnecting {
        Refusal::Reconnecting
    } else {
        Refusal::Closed
    }
}

/// Strict mode requires a discovery snapshot that advertises the method;
/// the other modes accept every method.
pub open spec fn method_check(
    mode: CompatibilityMode,
    capabilities: Option<Capabilities>,
    method: Seq<char>,
) -> Option<Refusal> {
    if mode != CompatibilityMode::Strict {
        None
    } else {
        match capabilities {
            None => Some(Refusal::DiscoveryRequired),
            Some(c) => if c.method_set().contains(method) {
                None
            } else {
                Some(Refusal::UnsupportedMethod)
            },
        }
    }
}

/// The generation after `g`: the counter wraps around.
pub open spec fn next_generation(g: u64) -> u64 {
    if g == u64::MAX {
        0
    } else {
        (g + 1) as u64
    }
}

/// A new socket session: ignored once shutdown was requested, otherwise
/// a new generation with an open outbound queue in the connected state.
pub open spec fn start_spec(s: SessionData) -> SessionData {
    if s.shutdown_requested {
        s
    } else {
        SessionData {
            state: ConnectionState::Connected,
            generation: next_generation(s.generation),
            outbound_open: true,
            ..s
        }
    }
}

/// The session after call `id` was answered or abandoned: it no longer
/// awaits a response.
pub open spec fn forget_call(s: SessionData, id: u64) -> SessionData {
    SessionData { pending: PendingData { next: s.pending.next, ids: s.pending.ids.remove(id) }, ..s }
}

/// What follows the end of a session.
#[derive(Clone, Copy, Debug, PartialEq, Eq, Structural)]
pub enum AfterEnd {
    /// Nothing more: the client was already closing, closed or failed.
    Nothing,
    /// Start the reconnect supervisor.
    Reconnect,
    /// End the event streams; the client is closed or failed for good.
    CloseEvents,
}

/// Whether the end of the current session leads to a reconnect.
pub open spec fn reconnects(s: SessionData, reconnectable: bool) -> bool {
    reconnectable && !(s.reconnect_policy is Never)
}

/// An end reported by session `generation` counts only when it is the
/// current one and shutdown was not requested.
pub open spec fn end_counts(s: SessionData, generation: u64) -> bool {
    generation == s.generation && !s.shutdown_requested
}

/// The client is closing, or in one of its final states: `Closed` and
/// `Failed` are final for a client, and an end reported then changes its
/// state no more.
pub open spec fn is_settled(state: ConnectionState) -> bool {
    state == ConnectionState::Closing || state == ConnectionState::Closed || state
        == ConnectionState::Failed
}

/// The state after the end of the current session.
pub open spec fn end_state(s: SessionData, reconnectable: bool, by_close: bool) -> ConnectionState {
    if is_settled(s.state) {
        s.state
    } else if reconnects(s, reconnectable) {
        ConnectionState::Reconnecting
    } else if by_close {
        ConnectionState::Closed
    } else {
        ConnectionState::Failed
    }
}

pub open spec fn after_end(s: SessionData, reconnectable: bool) -> AfterEnd {
    if is_settled(s.state) {
        AfterEnd::Nothing
    } else if reconnects(s, reconnectable) {
        AfterEnd::Reconnect
    } else {
        AfterEnd::CloseEvents
    }
}

/// The end of session `generation`: when it counts, the outbound queue
/// closes, every call in flight fails, the discovery snapshot is dropped
/// and the state moves on; a stale or post-shutdown end changes nothing.
/// `by_close` says whether the end was a close rather than a failure.
pub open spec fn end_spec(s: SessionData, generation: u64, reconnectable: bool, by_close: bool) -> SessionData {
    if !end_counts(s, generation) {
        s
    } else {
        SessionData {
            state: end_state(s, reconnectable, by_close),
            outbound_open: false,
            capabilities: None,
            pending: PendingData { next: s.pending.next, ids: Set::empty() },
            ..s
        }
    }
}

/// The first half of shutdown: shutdown is requested, the state becomes
/// `Closing` unless already closed or failed, the outbound queue closes
/// and every call in flight fails.
pub open spec fn shutdown_spec(s: SessionData) -> SessionData {
    SessionData {
        state: if s.state == ConnectionState::Closed || s.state == ConnectionState::Failed {
            s.state
        } else {
            ConnectionState::Closing
        },
        shutdown_requested: true,
        outbound_open: false,
        pending: PendingData { next: s.pending.next, ids: Set::empty() },
        ..s
    }
}

/// The second half of shutdown: the state becomes `Closed` unless it was
/// `Failed` when shutdown began.
pub open spec fn finish_shutdown_spec(s: SessionData, preserve_failed: bool) -> SessionData {
    if preserve_failed {
        s
    } else {
        SessionData { state: ConnectionState::Closed, ..s }
    }
}

/// How a session ended, as reported to the runtime.
#[derive(Debug)]
pub enum Ending {
    /// The end was stale or came after shutdown; nothing changed.
    Ignored,
    /// The session ended: `failed` are the calls that must complete with
    /// `error`, and `then` says what follows.
    Ended { failed: Vec<RequestId>, error: Error, then: AfterEnd },
}

/// `r` reports the end computed by `end_spec` from `s`.
pub open spec fn ending_reports(r: Ending, s: SessionData, generation: u64, reconnectable: bool) -> bool {
    if !end_counts(s, generation) {
        r is Ignored
    } else {
        r matches Ending::Ended { failed, then, .. } && ids_of(failed@) == s.pending.ids && then
            == after_end(s, reconnectable)
    }
}

/// The error carried by an ending, when it carries one.
pub open spec fn ending_error(r: Ending) -> Option<Error> {
    match r {
        Ending::Ended { error, .. } => Some(error),
        Ending::Ignored => None,
    }
}

/// What to do after shutdown began.
#[derive(Debug)]
pub struct ShutdownPlan {
    /// Whether the state was `Failed` and must stay so.
    pub preserve_failed: bool,
    /// Calls that must complete with `Error::Closed`.
    pub failed: Vec<RequestId>,
}

/// An inbound WebSocket event, as the runtime reports it.
#[derive(Debug)]
pub enum Frame {
    /// A text frame with this text.
    Text(String),
    /// A ping.
    Ping,
    /// A pong.
    Pong,
    /// A close frame.
    Close,
    /// A binary frame.
    Binary,
    /// Any other frame kind.
    Unsupported,
    /// The stream failed with this transport error.
    Broken(String),
    /// The stream ended.
    End,
}

/// What the reader does with a frame.
#[derive(Debug)]
pub enum FrameAction {
    /// Nothing to do; read on.
    Continue,
    /// Hand `result` to the waiting call `id`.
    Deliver { id: RequestId, result: Result<JsonValue, Error> },
    /// Broadcast a normalized notification and its typed event.
    Publish { raw: RawNotification, event: Event },
    /// Queue a pong on the outbound queue; if that fails, report
    /// `pong_not_queued`.
    QueuePong,
    /// The session ended; the reader stops.
    Stop(Ending),
}

impl Session {
    /// A session with no socket session started yet: connected,
    /// generation 0, no discovery snapshot and no call in flight.
    pub fn new(compatibility_mode: CompatibilityMode, reconnect_policy: ReconnectPolicy) -> (r:
        Session)
        ensures
            r@.state == ConnectionState::Connected,
            r@.generation == 0,
            !r@.shutdown_requested,
            !r@.outbound_open,
            r@.capabilities is None,
            r@.pending.next == 1,
            r@.pending.ids == Set::<u64>::empty(),
            r@.compatibility_mode == compatibility_mode,
            r@.reconnect_policy == reconnect_policy,
    {
        Session {
            state: ConnectionState::Connected,
            generation: 0,
            shutdown_requested: false,
            outbound_open: false,
            capabilities: None,
            pending: PendingRequests::new(),
            compatibility_mode,
            reconnect_policy,
        }
    }

    /// The lifecycle state.
    pub fn state(&self) -> (r: ConnectionState)
        ensures
            r == self@.state,
    {
        self.state
    }

    /// The generation of the current socket session.
    pub fn generation(&self) -> (r: u64)
        ensures
            r == self@.generation,
    {
        self.generation
    }

    /// Whether shutdown was requested.
    pub fn shutdown_requested(&self) -> (r: bool)
        ensures
            r == self@.shutdown_requested,
    {
        self.shutdown_requested
    }

    /// The invocation policy.
    pub fn compatibility_mode(&self) -> (r: CompatibilityMode)
        ensures
            r == self@.compatibility_mode,
    {
        self.compatibility_mode
    }

    /// The reconnect policy.
    pub fn reconnect_policy(&self) -> (r: &ReconnectPolicy)
        ensures
            *r == self@.reconnect_policy,
    {
        &self.reconnect_policy
    }

    /// The cached discovery snapshot.
    pub fn capabilities(&self) -> (r: Option<&Capabilities>)
        ensures
            match r {
                Some(c) => self@.capabilities == Some(*c),
                None => self@.capabilities is None,
            },
    {
        self.capabilities.as_ref()
    }

    /// Caches a discovery snapshot.
    pub fn replace_capabilities(&mut self, capabilities: Capabilities)
        ensures
            final(self)@ == (SessionData { capabilities: Some(capabilities), ..old(self)@ }),
    {
        self.capabilities = Some(capabilities);
    }

    /// Drops the cached discovery snapshot.
    pub fn clear_capabilities(&mut self)
        ensures
            final(self)@ == (SessionData { capabilities: None, ..old(self)@ }),
    {
        self.capabilities = None;
    }

    /// Number of calls awaiting a response.
    pub fn pending_len(&self) -> (r: usize)
        ensures
            r == self@.pending.ids.len(),
    {
        self.pending.len()
    }

    fn refusal_error(r: &Refusal, method: &str) -> (e: Error)
        ensures
            refused_with(e, *r, method@),
    {
        match r {
            Refusal::Reconnecting => Error::Reconnecting,
            Refusal::Closed => Error::Closed,
            Refusal::DiscoveryRequired => Error::DiscoveryRequired,
            Refusal::UnsupportedMethod => Error::UnsupportedMethod { method: method.to_owned() },
        }
    }

    /// Accepts a call only while connected.
    pub fn admit_call(&self) -> (r: Result<(), Error>)
        ensures
            match r {
                Ok(()) => admission(self@.state) is None,
                Err(e) => admission(self@.state) matches Some(x) && refused_with(e, x, Seq::empty()),
            },
    {
        match self.state {
            ConnectionState::Connected => Ok(()),
            ConnectionState::Reconnecting => Err(Error::Reconnecting),
            _ => Err(Error::Closed),
        }
    }

    /// The error of a call whose transport went away: `Reconnecting`
    /// while reconnecting, otherwise `Closed`.
    pub fn unavailable_error(&self) -> (e: Error)
        ensures
            refused_with(e, unavailable(self@.state), Seq::empty()),
    {
        if self.state == ConnectionState::Reconnecting {
            Error::Reconnecting
        } else {
            Error::Closed
        }
    }

    /// The strict-mode preflight check of a typed call.
    pub fn ensure_method_allowed(&self, method: &str) -> (r: Result<(), Error>)
        ensures
            match r {
                Ok(()) => method_check(self@.compatibility_mode, self@.capabilities, method@) is None,
                Err(e) => method_check(self@.compatibility_mode, self@.capabilities, method@) matches Some(
                    x,
                ) && refused_with(e, x, method@),
            },
    {
        if self.compatibility_mode != CompatibilityMode::Strict {
            return Ok(());
        }
        match &self.capabilities {
            None => Err(Error::DiscoveryRequired),
            Some(c) => if c.supports_method(method) {
                Ok(())
            } else {
                Err(Error::UnsupportedMethod { method: method.to_owned() })
            },
        }
    }

    /// The preflight check of a raw call: discovery itself is never
    /// refused, other methods are checked as typed calls are.
    pub fn ensure_raw_call_allowed(&self, method: &str) -> (r: Result<(), Error>)
        ensures
            method@ == "rpc.discover"@ ==> r is Ok,
            method@ != "rpc.discover"@ ==> match r {
                Ok(()) => method_check(self@.compatibility_mode, self@.capabilities, method@) is None,
                Err(e) => method_check(self@.compatibility_mode, self@.capabilities, method@) matches Some(
                    x,
                ) && refused_with(e, x, method@),
            },
    {
        if str_eq(method, "rpc.discover") {
            Ok(())
        } else {
            self.ensure_method_allowed(method)
        }
    }

    /// Starts socket session: unless shutdown was requested, a new
    /// generation begins with an open outbound queue in the connected
    /// state. The runtime stops the previous session's tasks first.
    pub fn start_session(&mut self) -> (r: Option<u64>)
        ensures
            final(self)@ == start_spec(old(self)@),
            match r {
                Some(g) => !old(self)@.shutdown_requested && g == final(self)@.generation,
                None => old(self)@.shutdown_requested,
            },
    {
        if self.shutdown_requested {
            return None;
        }
        self.generation = if self.generation == u64::MAX {
            0
        } else {
            self.generation + 1
        };
        self.outbound_open = true;
        self.state = ConnectionState::Connected;
        Some(self.generation)
    }

    /// Admits a call, registers it and builds its request document. A
    /// refused call registers nothing; a call that cannot be sent is
    /// forgotten again.
    pub fn begin_call(&mut self, method: &str, params: Option<JsonValue>) -> (r: Result<
        (RequestId, JsonValue),
        Error,
    >)
        ensures
            final(self)@.state == old(self)@.state,
            final(self)@.generation == old(self)@.generation,
            final(self)@.shutdown_requested == old(self)@.shutdown_requested,
            final(self)@.outbound_open == old(self)@.outbound_open,
            final(self)@.capabilities == old(self)@.capabilities,
            final(self)@.compatibility_mode == old(self)@.compatibility_mode,
            final(self)@.reconnect_policy == old(self)@.reconnect_policy,
            admission(old(self)@.state) is Some ==> final(self)@.pending == old(self)@.pending,
            admission(old(self)@.state) is None ==> final(self)@.pending.next == successor(
                old(self)@.pending.next,
            ),
            match r {
                Ok((id, doc)) => {
                    &&& admission(old(self)@.state) is None
                    &&& method@.len() > 0
                    &&& old(self)@.outbound_open
                    &&& id.id() == old(self)@.pending.next
                    &&& final(self)@.pending.ids == old(self)@.pending.ids.insert(id.id())
                    &&& doc@ == request_json(id.id(), method@, opt_json_view(params))
                },
                Err(e) => match admission(old(self)@.state) {
                    Some(x) => refused_with(e, x, Seq::empty()),
                    None => {
                        &&& final(self)@.pending.ids == old(self)@.pending.ids.remove(
                            old(self)@.pending.next,
                        )
                        &&& if method@.len() == 0 {
                            e matches Error::Configuration(m) && m@
                                == "JSON-RPC method must not be empty"@
                        } else {
                            !old(self)@.outbound_open && refused_with(
                                e,
                                unavailable(old(self)@.state),
                                Seq::empty(),
                            )
                        }
                    },
                },
            },
    {
        if let Err(e) = self.admit_call() {
            return Err(e);
        }
        let id = self.pending.register();
        let doc = match build_request(id, method, params) {
            Ok(doc) => doc,
            Err(e) => {
                self.pending.remove(id.get());
                proof {
                    assert(self.pending@.ids =~= old(self)@.pending.ids.remove(old(self)@.pending.next));
                }
                return Err(e);
            },
        };
        if !self.outbound_open {
            self.pending.remove(id.get());
            proof {
                assert(self.pending@.ids =~= old(self)@.pending.ids.remove(old(self)@.pending.next));
            }
            return Err(self.unavailable_error());
        }
        Ok((id, doc))
    }

    /// The outbound queue refused the request: the call is forgotten and
    /// fails as unavailable.
    pub fn send_failed(&mut self, id: RequestId) -> (e: Error)
        ensures
            final(self)@ == forget_call(old(self)@, id.id()),
            refused_with(e, unavailable(old(self)@.state), Seq::empty()),
    {
        self.pending.remove(id.get());
        self.unavailable_error()
    }

    /// No response arrived in time: the call is forgotten, and a late
    /// response will be ignored.
    pub fn call_timed_out(&mut self, id: RequestId, method: &str) -> (e: Error)
        ensures
            final(self)@ == forget_call(old(self)@, id.id()),
            e matches Error::Timeout { id: i, method: m } && i == id && m@ == method@,
    {
        self.pending.remove(id.get());
        Error::Timeout { id, method: method.to_owned() }
    }

    /// Ends session `generation` with `error`; see `end_spec`.
    pub fn session_ended(&mut self, generation: u64, error: Error, reconnectable: bool) -> (r:
        Ending)
        ensures
            final(self)@ == end_spec(old(self)@, generation, reconnectable, error is Closed),
            ending_reports(r, old(self)@, generation, reconnectable),
            r matches Ending::Ended { error: e, .. } ==> e == error,
    {
        if self.generation != generation || self.shutdown_requested {
            return Ending::Ignored;
        }
        let by_close = match error {
            Error::Closed => true,
            _ => false,
        };
        self.outbound_open = false;
        let failed = self.pending.take_all();
        self.capabilities = None;
        let should_reconnect = reconnectable && self.reconnect_policy.is_enabled();
        let then = if self.state == ConnectionState::Closing || self.state == ConnectionState::Closed
            || self.state == ConnectionState::Failed {
            AfterEnd::Nothing
        } else if should_reconnect {
            self.state = ConnectionState::Reconnecting;
            AfterEnd::Reconnect
        } else if by_close {
            self.state = ConnectionState::Closed;
            AfterEnd::CloseEvents
        } else {
            self.state = ConnectionState::Failed;
            AfterEnd::CloseEvents
        };
        proof {
            assert(self@ =~= end_spec(old(self)@, generation, reconnectable, error is Closed));
        }
        Ending::Ended { failed, error, then }
    }

    /// The writer could not send a frame.
    pub fn writer_failed(&mut self, generation: u64, message: String) -> (r: Ending)
        ensures
            final(self)@ == end_spec(old(self)@, generation, true, false),
            ending_reports(r, old(self)@, generation, true),
            ending_error(r) matches Some(e) ==> e == Error::Transport(message),
    {
        self.session_ended(generation, Error::Transport(message), true)
    }

    /// The pong for a ping could not be queued.
    pub fn pong_not_queued(&mut self, generation: u64) -> (r: Ending)
        ensures
            final(self)@ == end_spec(old(self)@, generation, true, false),
            ending_reports(r, old(self)@, generation, true),
            ending_error(r) matches Some(e) ==> e matches Error::Transport(m) && m@
                == "unable to queue WebSocket pong"@,
    {
        self.session_ended(generation, Error::Transport("unable to queue WebSocket pong".to_owned()), true)
    }

    /// Begins shutdown; see `shutdown_spec`. The runtime then signals the
    /// tasks to stop, fails `failed` with `Error::Closed`, waits for the
    /// tasks, and calls `finish_shutdown`.
    pub fn begin_shutdown(&mut self) -> (r: ShutdownPlan)
        ensures
            final(self)@ == shutdown_spec(old(self)@),
            r.preserve_failed == (old(self)@.state == ConnectionState::Failed),
            ids_of(r.failed@) == old(self)@.pending.ids,
    {
        let preserve_failed = self.state == ConnectionState::Failed;
        if !(self.state == ConnectionState::Closed || self.state == ConnectionState::Failed) {
            self.state = ConnectionState::Closing;
        }
        self.shutdown_requested = true;
        self.outbound_open = false;
        let failed = self.pending.take_all();
        proof {
            assert(self@ =~= shutdown_spec(old(self)@));
        }
        ShutdownPlan { preserve_failed, failed }
    }

    /// Completes shutdown once the tasks have stopped.
    pub fn finish_shutdown(&mut self, plan: &ShutdownPlan)
        ensures
            final(self)@ == finish_shutdown_spec(old(self)@, plan.preserve_failed),
    {
        if !plan.preserve_failed {
            self.state = ConnectionState::Closed;
        }
    }

    /// The reconnect supervisor gave up: the client has failed.
    pub fn finish_reconnect_failure(&mut self)
        ensures
            final(self)@ == (SessionData { state: ConnectionState::Failed, ..old(self)@ }),
    {
        self.state = ConnectionState::Failed;
    }

    /// Handles one inbound frame of session `generation`.
    pub fn on_frame(&mut self, generation: u64, frame: Frame) -> (r: FrameAction)
        ensures
            match frame {
                Frame::Pong => r is Continue && final(self)@ == old(self)@,
                Frame::Ping => if generation == old(self)@.generation && old(self)@.outbound_open {
                    r is QueuePong && final(self)@ == old(self)@
                } else {
                    r matches FrameAction::Stop(end) && final(self)@ == end_spec(
                        old(self)@,
                        generation,
                        true,
                        false,
                    ) && ending_reports(end, old(self)@, generation, true) && (ending_error(end) matches Some(e)
                        ==> e matches Error::Transport(m) && m@ == "unable to queue WebSocket pong"@)
                },
                Frame::Close | Frame::End => r matches FrameAction::Stop(end) && final(self)@
                    == end_spec(old(self)@, generation, true, true) && ending_reports(
                    end,
                    old(self)@,
                    generation,
                    true,
                ) && (ending_error(end) matches Some(e) ==> e == Error::Closed),
                Frame::Binary => r matches FrameAction::Stop(end) && final(self)@ == end_spec(
                    old(self)@,
                    generation,
                    false,
                    false,
                ) && ending_reports(end, old(self)@, generation, false) && (ending_error(end) matches Some(e)
                    ==> is_protocol_with(e, "binary WebSocket frames are not valid MCSMP JSON-RPC text"@)),
                Frame::Unsupported => r matches FrameAction::Stop(end) && final(self)@ == end_spec(
                    old(self)@,
                    generation,
                    false,
                    false,
                ) && ending_reports(end, old(self)@, generation, false) && (ending_error(end) matches Some(e)
                    ==> is_protocol_with(e, "unsupported WebSocket frame received from peer"@)),
                Frame::Broken(m) => r matches FrameAction::Stop(end) && final(self)@ == end_spec(
                    old(self)@,
                    generation,
                    true,
                    false,
                ) && ending_reports(end, old(self)@, generation, true) && (ending_error(end) matches Some(e)
                    ==> e == Error::Transport(m)),
                Frame::Text(t) => match inbound_text_spec(t@) {
                    Ok(InboundData::Response { id, result }) => if old(self)@.pending.ids.contains(id) {
                        &&& r matches FrameAction::Deliver { id: rid, result: res }
                        &&& rid.id() == id
                        &&& match (res, result) {
                            (Ok(x), Ok(y)) => x@ == y,
                            (Err(Error::Remote(re)), Err(rd)) => re@ == rd,
                            _ => false,
                        }
                        &&& final(self)@ == forget_call(old(self)@, id)
                    } else {
                        r is Continue && final(self)@ == old(self)@
                    },
                    Ok(InboundData::Notification { method, params }) => match normalize_spec(
                        RawData { method, params },
                        old(self)@.compatibility_mode,
                    ) {
                        Ok(n) => r matches FrameAction::Publish { raw, event } && raw@ == n && event@
                            == event_of(n, world_supported_by(old(self)@.capabilities)) && final(self)@
                            == old(self)@,
                        Err(m) => r matches FrameAction::Stop(end) && final(self)@ == end_spec(
                            old(self)@,
                            generation,
                            false,
                            false,
                        ) && ending_reports(end, old(self)@, generation, false) && (ending_error(end) matches Some(e)
                            ==> is_protocol_with(e, m)),
                    },
                    Err(m) => r matches FrameAction::Stop(end) && final(self)@ == end_spec(
                        old(self)@,
                        generation,
                        false,
                        false,
                    ) && ending_reports(end, old(self)@, generation, false) && (ending_error(end) matches Some(e)
                        ==> is_protocol_with(e, m)),
                },
            },
    {
        match frame {
            Frame::Pong => FrameAction::Continue,
            Frame::Ping => {
                if generation == self.generation && self.outbound_open {
                    FrameAction::QueuePong
                } else {
                    FrameAction::Stop(self.pong_not_queued(generation))
                }
            },
            Frame::Close => FrameAction::Stop(self.session_ended(generation, Error::Closed, true)),
            Frame::End => FrameAction::Stop(self.session_ended(generation, Error::Closed, true)),
            Frame::Binary => FrameAction::Stop(
                self.session_ended(
                    generation,
                    Error::Protocol(
                        "binary WebSocket frames are not valid MCSMP JSON-RPC text".to_owned(),
                    ),
                    false,
                ),
            ),
            Frame::Unsupported => FrameAction::Stop(
                self.session_ended(
                    generation,
                    Error::Protocol("unsupported WebSocket frame received from peer".to_owned()),
                    false,
                ),
            ),
            Frame::Broken(m) => FrameAction::Stop(
                self.session_ended(generation, Error::Transport(m), true),
            ),
            Frame::Text(t) => match parse_inbound(t.as_str()) {
                Ok(Inbound::Response { id, result }) => {
                    if self.pending.remove(id.get()) {
                        FrameAction::Deliver { id, result }
                    } else {
                        assert(self.pending@.ids =~= old(self)@.pending.ids);
                        assert(self@ =~= old(self)@);
                        FrameAction::Continue
                    }
                },
                Ok(Inbound::Notification { method, params }) => {
                    let raw = RawNotification { method, params };
                    match normalize_notification(raw, self.compatibility_mode) {
                        Ok(n) => {
                            let copy = n.clone();
                            let event = decode_event(copy, self.capabilities.as_ref());
                            FrameAction::Publish { raw: n, event }
                        },
                        Err(m) => FrameAction::Stop(
                            self.session_ended(generation, Error::Protocol(m), false),
                        ),
                    }
                },
                Err(e) => FrameAction::Stop(self.session_ended(generation, e, false)),
            },
        }
    }
}

/// What the reconnect supervisor asks for next.
#[derive(Debug, PartialEq, Eq)]
pub enum ReconnectAction {
    /// Sleep for this long, then report `Waited`.
    Wait(Duration),
    /// Open a socket, then report `Opened` or `OpenFailed`.
    Open,
    /// Start the reader and writer of socket session `generation` on the
    /// opened socket, run discovery, then report `Discovered`.
    Discover(u64),
    /// The attempts are exhausted: the client failed; end the event
    /// streams.
    GiveUp,
    /// Stop supervising.
    Stop,
}

/// What happened since the supervisor's last request.
#[derive(Clone, Copy, Debug, PartialEq, Eq, Structural)]
pub enum ReconnectEvent {
    /// The supervisor was started.
    Begin,
    /// The requested wait is over.
    Waited,
    /// Opening a socket failed.
    OpenFailed,
    /// A socket was opened.
    Opened,
    /// Discovery on the new session finished; the flag says whether it
    /// succeeded.
    Discovered(bool),
}

/// The reconnect supervisor of one interruption; attempts count from 1.
#[derive(Debug)]
pub struct Reconnector {
    attempt: usize,
}

/// The attempt after `a`, saturating.
pub open spec fn next_attempt(a: usize) -> usize {
    if a == usize::MAX {
        a
    } else {
        (a + 1) as usize
    }
}

/// `r` is what the supervisor asks for at the top of its loop with
/// attempt `attempt`, and `t` the session afterwards.
pub open spec fn top_of_loop(attempt: usize, s: SessionData, t: SessionData, r: ReconnectAction) -> bool {
    if s.shutdown_requested {
        r is Stop && t == s
    } else {
        match delay_spec(s.reconnect_policy, attempt) {
            None => r is GiveUp && t == (SessionData { state: ConnectionState::Failed, ..s }),
            Some(n) => r matches ReconnectAction::Wait(d) && d@ == n && t == s,
        }
    }
}

impl Reconnector {
    /// A supervisor at its first attempt.
    pub fn new() -> (r: Reconnector)
        ensures
            r.attempt() == 1,
    {
        Reconnector { attempt: 1 }
    }

    /// The current attempt number.
    pub closed spec fn attempt(&self) -> usize {
        self.attempt
    }

    /// Returns the current attempt number.
    pub fn current_attempt(&self) -> (r: usize)
        ensures
            r == self.attempt(),
    {
        self.attempt
    }

    fn top(&mut self, session: &mut Session) -> (r: ReconnectAction)
        ensures
            final(self).attempt() == old(self).attempt(),
            top_of_loop(old(self).attempt(), old(session)@, final(session)@, r),
    {
        if session.shutdown_requested() {
            return ReconnectAction::Stop;
        }
        match session.reconnect_policy().delay_for_attempt(self.attempt) {
            None => {
                session.finish_reconnect_failure();
                ReconnectAction::GiveUp
            },
            Some(d) => ReconnectAction::Wait(d),
        }
    }

    /// Decides the next step after `event`. No step registers, sends or
    /// replays a call: the calls in flight are never touched.
    pub fn step(&mut self, session: &mut Session, event: ReconnectEvent) -> (r: ReconnectAction)
        ensures
            final(session)@.pending == old(session)@.pending,
            match event {
                ReconnectEvent::Begin => final(self).attempt() == old(self).attempt() && top_of_loop(
                    old(self).attempt(),
                    old(session)@,
                    final(session)@,
                    r,
                ),
                ReconnectEvent::Waited => final(self).attempt() == old(self).attempt() && final(session)@ == old(session)@ && if old(session)@.shutdown_requested {
                    r is Stop
                } else {
                    r is Open
                },
                ReconnectEvent::OpenFailed => final(self).attempt() == next_attempt(
                    old(self).attempt(),
                ) && top_of_loop(final(self).attempt(), old(session)@, final(session)@, r),
                ReconnectEvent::Opened => final(self).attempt() == old(self).attempt() && if old(session)@.shutdown_requested {
                    r is Stop && final(session)@ == old(session)@
                } else {
                    final(session)@ == start_spec(
                        SessionData { capabilities: None, ..old(session)@ },
                    ) && r == ReconnectAction::Discover(final(session)@.generation)
                },
                ReconnectEvent::Discovered(ok) => if ok || old(session)@.state
                    == ConnectionState::Connected {
                    r is Stop && final(session)@ == old(session)@ && final(self).attempt() == old(self).attempt()
                } else {
                    final(self).attempt() == next_attempt(old(self).attempt()) && top_of_loop(
                        final(self).attempt(),
                        old(session)@,
                        final(session)@,
                        r,
                    )
                },
            },
    {
        match event {
            ReconnectEvent::Begin => self.top(session),
            ReconnectEvent::Waited => {
                if session.shutdown_requested() {
                    ReconnectAction::Stop
                } else {
                    ReconnectAction::Open
                }
            },
            ReconnectEvent::OpenFailed => {
                self.attempt = self.attempt.saturating_add(1);
                self.top(session)
            },
            ReconnectEvent::Opened => {
                if session.shutdown_requested() {
                    return ReconnectAction::Stop;
                }
                session.clear_capabilities();
                match session.start_session() {
                    Some(g) => ReconnectAction::Discover(g),
                    None => ReconnectAction::Stop,
                }
            },
            ReconnectEvent::Discovered(ok) => {
                if ok || session.state() == ConnectionState::Connected {
                    return ReconnectAction::Stop;
                }
                self.attempt = self.attempt.saturating_add(1);
                self.top(session)
            },
        }
    }
}

/// An end reported by a session other than the current one changes
/// nothing.
pub proof fn lemma_stale_end_is_ignored(s: SessionData, generation: u64, reconnectable: bool, by_close: bool)
    requires
        generation != s.generation,
    ensures
        end_spec(s, generation, reconnectable, by_close) == s,
{
}

/// When the current session ends, every call in flight fails with the
/// session's error, nothing is left to send, and the discovery snapshot is
/// dropped.
pub proof fn lemma_end_fails_every_call(s: SessionData, reconnectable: bool, by_close: bool)
    requires
        !s.shutdown_requested,
    ensures
        end_spec(s, s.generation, reconnectable, by_close).pending.ids.is_empty(),
        !end_spec(s, s.generation, reconnectable, by_close).outbound_open,
        end_spec(s, s.generation, reconnectable, by_close).capabilities is None,
{
}

/// Reconnection never replays a call: once the current session has ended
/// and the supervisor has started the next one, no call of the old session
/// is in flight, no discovery snapshot of the old session survives, and
/// request identifiers continue from where they were.
pub proof fn lemma_reconnect_never_replays(s: SessionData, by_close: bool)
    requires
        !s.shutdown_requested,
        s.state == ConnectionState::Connected,
        !(s.reconnect_policy is Never),
    ensures
        ({
            let t = end_spec(s, s.generation, true, by_close);
            let u = start_spec(SessionData { capabilities: None, ..t });
            &&& t.state == ConnectionState::Reconnecting
            &&& u.state == ConnectionState::Connected
            &&& u.pending.ids.is_empty()
            &&& u.pending.next == s.pending.next
            &&& u.capabilities is None
            &&& u.generation != s.generation
        }),
{
}

/// `Closed` and `Failed` are final: a session end reported once the client
/// is in one of them leaves the state as it is and starts nothing.
pub proof fn lemma_final_states_stay(s: SessionData, generation: u64, reconnectable: bool, by_close: bool)
    requires
        s.state == ConnectionState::Closed || s.state == ConnectionState::Failed,
    ensures
        end_spec(s, generation, reconnectable, by_close).state == s.state,
        after_end(s, reconnectable) == AfterEnd::Nothing,
{
}

/// While reconnecting, calls are refused with `Reconnecting`; once closing,
/// closed or failed, with `Closed`.
pub proof fn lemma_calls_refused_unless_connected(state: ConnectionState)
    ensures
        state == ConnectionState::Reconnecting ==> admission(state) == Some(Refusal::Reconnecting),
        (state == ConnectionState::Closing || state == ConnectionState::Closed || state
            == ConnectionState::Failed) ==> admission(state) == Some(Refusal::Closed),
        state == ConnectionState::Connected ==> admission(state) is None,
{
}

/// Shutdown is final: afterwards no socket session starts, no end is
/// acted on, every call is refused with `Closed`, and the final state is
/// `Closed`, or `Failed` when the client had already failed.
pub proof fn lemma_shutdown_is_final(s: SessionData, generation: u64, reconnectable: bool, by_close: bool)
    ensures
        ({
            let t = shutdown_spec(s);
            let done = finish_shutdown_spec(t, s.state == ConnectionState::Failed);
            &&& start_spec(t) == t
            &&& end_spec(t, generation, reconnectable, by_close) == t
            &&& admission(t.state) == Some(Refusal::Closed)
            &&& t.pending.ids.is_empty()
            &&& done.state == (if s.state == ConnectionState::Failed {
                ConnectionState::Failed
            } else {
                ConnectionState::Closed
            })
            &&& admission(done.state) == Some(Refusal::Closed)
        }),
{
}

/// Shutting down again changes nothing: after a completed shutdown, a
/// second one leaves the state (`Closed`, or `Failed`) as it is, with no
/// call in flight and shutdown still requested.
pub proof fn lemma_second_shutdown_changes_nothing(s: SessionData)
    ensures
        ({
            let t = finish_shutdown_spec(shutdown_spec(s), s.state == ConnectionState::Failed);
            let u = finish_shutdown_spec(shutdown_spec(t), t.state == ConnectionState::Failed);
            &&& u.state == t.state
            &&& u.pending.ids.is_empty()
            &&& u.shutdown_requested
            &&& !u.outbound_open
        }),
{
}

/// Strict mode refuses every call before discovery; the other modes never
/// refuse a method.
pub proof fn lemma_strict_mode_requires_discovery(
    mode: CompatibilityMode,
    capabilities: Option<Capabilities>,
    method: Seq<char>,
)
    ensures
        mode == CompatibilityMode::Strict && capabilities is None ==> method_check(
            mode,
            capabilities,
            method,
        ) == Some(Refusal::DiscoveryRequired),
        mode != CompatibilityMode::Strict ==> method_check(mode, capabilities, method) is None,
{
}

/// A policy with an attempt limit gives up once the limit is passed: the
/// supervisor then fails the client instead of waiting.
pub proof fn lemma_attempts_are_bounded(s: SessionData, attempt: usize, t: SessionData, r: ReconnectAction)
    requires
        !s.shutdown_requested,
        match s.reconnect_policy {
            ReconnectPolicy::Fixed { max_attempts: Some(n), .. } => attempt > n,
            ReconnectPolicy::Exponential { max_attempts: Some(n), .. } => attempt > n,
            ReconnectPolicy::Never => true,
            _ => false,
        },
        top_of_loop(attempt, s, t, r),
    ensures
        r is GiveUp,
        t.state == ConnectionState::Failed,
{
}

/// A call receives at most one response: once answered it no longer
/// awaits one, and the other calls still do.
pub proof fn lemma_response_delivered_once(s: SessionData, id: u64, other: u64)
    requires
        s.pending.ids.contains(id),
        other != id,
    ensures
        !forget_call(s, id).pending.ids.contains(id),
        forget_call(s, id).pending.ids.contains(other) == s.pending.ids.contains(other),
        forget_call(s, id).state == s.state,
{
}

} // verus!
