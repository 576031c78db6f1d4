//! Client configuration: the endpoint, the builder and its validation, and
//! the handshake headers derived from it.

use vstd::prelude::*;

use crate::auth::Auth;
use crate::discovery::CompatibilityMode;
use crate::error::{is_configuration_with, Error};
use crate::reconnect::{policy_violation, ReconnectPolicy};
use crate::text::{push_str, str_eq};
use crate::time::Duration;

verus! {

/// What `url::Url::parse` makes of a text: its serialization, its scheme
/// and its host, or `None` when the text is not a URL.
pub uninterp spec fn url_parts(text: Seq<char>) -> Option<(Seq<char>, Seq<char>, Option<Seq<char>>)>;

/// Parses a URL with `url::Url::parse` and returns the serialization
/// (`Url::as_str`), the scheme (`Url::scheme`) and the host
/// (`Url::host_str`). The result is named, not described: it depends on
/// the text alone.
#[verifier::external_body]
fn parse_url(text: &str) -> (r: Option<(String, String, Option<String>)>)
    ensures
        match r {
            Some((s, scheme, host)) => url_parts(text@) == Some(
                (
                    s@,
                    scheme@,
                    match host {
                        Some(h) => Some(h@),
                        None => None::<Seq<char>>,
                    },
                ),
            ),
            None => url_parts(text@) is None,
        },
{
    match url::Url::parse(text) {
        Ok(u) => {
            let host = match u.host_str() {
                Some(h) => Some(h.to_owned()),
                None => None,
            };
            Some((u.as_str().to_owned(), u.scheme().to_owned(), host))
        },
        Err(_) => None,
    }
}

/// A parsed management endpoint URL.
#[derive(Clone, Debug, PartialEq, Eq)]
pub struct Endpoint {
    serialization: String,
    scheme: String,
    host: Option<String>,
}

/// The parts of an endpoint URL.
pub struct EndpointData {
    pub text: Seq<char>,
    pub scheme: Seq<char>,
    pub host: Option<Seq<char>>,
}

impl View for Endpoint {
    type V = EndpointData;

    closed spec fn view(&self) -> EndpointData {
        EndpointData {
            text: self.serialization@,
            scheme: self.scheme@,
            host: match self.host {
                Some(h) => Some(h@),
                None => None,
            },
        }
    }
}

impl Endpoint {
    /// Parses an endpoint URL; `None` when the text is not a URL.
    pub fn parse(text: &str) -> (r: Option<Endpoint>)
        ensures
            match r {
                Some(e) => url_parts(text@) == Some((e@.text, e@.scheme, e@.host)),
                None => url_parts(text@) is None,
            },
    {
        match parse_url(text) {
            Some((serialization, scheme, host)) => Some(Endpoint { serialization, scheme, host }),
            None => None,
        }
    }

    /// An endpoint from the parts of a URL already parsed: its
    /// serialization, its scheme and its host.
    pub fn from_parts(serialization: String, scheme: String, host: Option<String>) -> (r: Endpoint)
        ensures
            r@.text == serialization@,
            r@.scheme == scheme@,
            r@.host == match host {
                Some(h) => Some(h@),
                None => None::<Seq<char>>,
            },
    {
        Endpoint { serialization, scheme, host }
    }

    /// The serialized URL.
    pub fn as_str(&self) -> (r: &str)
        ensures
            r@ == self@.text,
    {
        self.serialization.as_str()
    }

    /// The URL scheme, lowercase.
    pub fn scheme(&self) -> (r: &str)
        ensures
            r@ == self@.scheme,
    {
        self.scheme.as_str()
    }

    /// The host, when the URL has one.
    pub fn host_str(&self) -> (r: Option<&str>)
        ensures
            match r {
                Some(h) => self@.host == Some(h@),
                None => self@.host is None,
            },
    {
        match &self.host {
            Some(h) => Some(h.as_str()),
            None => None,
        }
    }
}

/// The current lifecycle state of a client connection.
#[derive(Clone, Copy, Debug, PartialEq, Eq, Structural)]
#[non_exhaustive]
pub enum ConnectionState {
    /// WebSocket handshake succeeded and requests can be sent.
    Connected,
    /// The client is waiting before or attempting an automatic
    /// reconnection; calls made in this state return `Error::Reconnecting`.
    Reconnecting,
    /// Shutdown was requested and connection tasks are draining.
    Closing,
    /// The connection shut down cleanly or the peer closed it.
    Closed,
    /// A transport or protocol failure terminated the connection
    /// permanently.
    Failed,
}

/// Handshake details retained for the initial connection and for
/// reconnect attempts.
#[derive(Clone)]
pub struct WebSocketConfig {
    /// Management endpoint.
    pub endpoint: Endpoint,
    /// Credentials sent during the handshake.
    pub auth: Auth,
    /// Optional `Origin` header value.
    pub origin: Option<String>,
}

/// The handshake headers, in order: the credential header of the chosen
/// authentication, then `Origin` when configured.
pub open spec fn handshake_headers_spec(auth: Auth, origin: Option<Seq<char>>) -> Seq<
    (Seq<char>, Seq<char>),
> {
    let credential: Seq<(Seq<char>, Seq<char>)> = match auth {
        Auth::Bearer(s) => seq![("authorization"@, "Bearer "@ + s@)],
        Auth::WebSocketSubprotocol(s) => seq![("sec-websocket-protocol"@, "minecraft-v1,"@ + s@)],
        Auth::Unauthenticated => Seq::empty(),
    };
    let origin_header: Seq<(Seq<char>, Seq<char>)> = match origin {
        Some(o) => seq![("origin"@, o)],
        None => Seq::empty(),
    };
    credential + origin_header
}

pub open spec fn opt_string_view(v: Option<String>) -> Option<Seq<char>> {
    match v {
        Some(s) => Some(s@),
        None => None,
    }
}

pub open spec fn headers_view(v: Seq<(String, String)>) -> Seq<(Seq<char>, Seq<char>)> {
    Seq::new(v.len(), |i: int| (v[i].0@, v[i].1@))
}

fn push_header(headers: &mut Vec<(String, String)>, name: &str, value: String)
    ensures
        headers_view(final(headers)@) == headers_view(old(headers)@).push((name@, value@)),
{
    headers.push((name.to_owned(), value));
    assert(headers_view(headers@) =~= headers_view(old(headers)@).push((name@, value@)));
}

impl WebSocketConfig {
    /// Bundles the handshake details.
    pub fn new(endpoint: Endpoint, auth: Auth, origin: Option<String>) -> (r: WebSocketConfig)
        ensures
            r.endpoint == endpoint,
            r.auth == auth,
            r.origin == origin,
    {
        WebSocketConfig { endpoint, auth, origin }
    }

    /// The lowercase names and the values of the headers the handshake adds.
    pub fn handshake_headers(&self) -> (r: Vec<(String, String)>)
        ensures
            headers_view(r@) == handshake_headers_spec(self.auth, opt_string_view(self.origin)),
    {
        headers_for(&self.auth, &self.origin)
    }
}

fn headers_for(auth: &Auth, origin: &Option<String>) -> (r: Vec<(String, String)>)
    ensures
        headers_view(r@) == handshake_headers_spec(*auth, opt_string_view(*origin)),
{
    let mut headers: Vec<(String, String)> = Vec::new();
    match auth {
        Auth::Bearer(s) => {
            let mut v = String::new();
            push_str(&mut v, "Bearer ");
            push_str(&mut v, s.expose());
            push_header(&mut headers, "authorization", v);
        },
        Auth::WebSocketSubprotocol(s) => {
            let mut v = String::new();
            push_str(&mut v, "minecraft-v1,");
            push_str(&mut v, s.expose());
            push_header(&mut headers, "sec-websocket-protocol", v);
        },
        Auth::Unauthenticated => {},
    }
    if let Some(o) = origin {
        push_header(&mut headers, "origin", o.clone());
    }
    proof {
        assert(headers_view(headers@) =~= handshake_headers_spec(*auth, opt_string_view(*origin)));
    }
    headers
}

/// Default JSON-RPC response timeout: ten seconds.
pub open spec fn default_request_timeout() -> nat {
    10_000_000_000
}

/// Default capacity of the outbound request queue.
pub const DEFAULT_CHANNEL_CAPACITY: usize = 128;

/// Fluent builder for a client connection. Authentication has no
/// implicit default.
#[derive(Clone)]
pub struct ClientBuilder {
    endpoint: Endpoint,
    auth: Option<Auth>,
    origin: Option<String>,
    request_timeout: Duration,
    channel_capacity: usize,
    compatibility_mode: CompatibilityMode,
    reconnect_policy: ReconnectPolicy,
}

/// The settings a builder holds.
pub struct BuilderData {
    pub endpoint: EndpointData,
    pub auth: Option<Auth>,
    pub origin: Option<Seq<char>>,
    pub request_timeout: nat,
    pub channel_capacity: usize,
    pub compatibility_mode: CompatibilityMode,
    pub reconnect_policy: ReconnectPolicy,
}

impl View for ClientBuilder {
    type V = BuilderData;

    closed spec fn view(&self) -> BuilderData {
        BuilderData {
            endpoint: self.endpoint@,
            auth: self.auth,
            origin: match self.origin {
                Some(o) => Some(o@),
                None => None,
            },
            request_timeout: self.request_timeout@,
            channel_capacity: self.channel_capacity,
            compatibility_mode: self.compatibility_mode,
            reconnect_policy: self.reconnect_policy,
        }
    }
}

/// Why the builder's settings cannot be used, checked in order: the
/// scheme, the host, the authentication choice, the timeout, the queue
/// capacity, then the reconnect policy. Every failure but the missing
/// authentication is a configuration error with the given message.
pub enum Problem {
    Configuration(Seq<char>),
    AuthenticationNotConfigured,
}

pub open spec fn builder_problem(b: BuilderData) -> Option<Problem> {
    if !(b.endpoint.scheme == "ws"@ || b.endpoint.scheme == "wss"@) {
        Some(
            Problem::Configuration(
                "MCSMP endpoint scheme must be ws or wss, got `"@ + b.endpoint.scheme + "`"@,
            ),
        )
    } else if b.endpoint.host is None {
        Some(Problem::Configuration("MCSMP endpoint must include a host"@))
    } else if b.auth is None {
        Some(Problem::AuthenticationNotConfigured)
    } else if b.request_timeout == 0 {
        Some(Problem::Configuration("request timeout must be greater than zero"@))
    } else if b.channel_capacity == 0 {
        Some(Problem::Configuration("channel capacity must be greater than zero"@))
    } else {
        match policy_violation(b.reconnect_policy) {
            Some(m) => Some(Problem::Configuration(m)),
            None => None,
        }
    }
}

/// `e` is the error that reports `p`.
pub open spec fn reports(e: Error, p: Problem) -> bool {
    match p {
        Problem::Configuration(m) => is_configuration_with(e, m),
        Problem::AuthenticationNotConfigured => e == Error::AuthenticationNotConfigured,
    }
}

/// Session settings derived from a validated builder.
pub struct ClientConfig {
    /// Maximum time a call waits for its response.
    pub request_timeout: Duration,
    /// Capacity of the outbound request queue.
    pub channel_capacity: usize,
    /// Discovery-aware invocation policy.
    pub compatibility_mode: CompatibilityMode,
    /// Automatic reconnection behavior.
    pub reconnect_policy: ReconnectPolicy,
    /// Handshake details.
    pub websocket: WebSocketConfig,
}

impl ClientBuilder {
    /// A builder targeting `endpoint` with the defaults: a ten-second
    /// timeout, a queue of 128, compatible mode, no reconnection, and no
    /// authentication chosen yet.
    pub fn new(endpoint: Endpoint) -> (r: ClientBuilder)
        ensures
            r@ == (BuilderData {
                endpoint: endpoint@,
                auth: None,
                origin: None,
                request_timeout: default_request_timeout(),
                channel_capacity: 128,
                compatibility_mode: CompatibilityMode::Compatible,
                reconnect_policy: ReconnectPolicy::Never,
            }),
    {
        ClientBuilder {
            endpoint,
            auth: None,
            origin: None,
            request_timeout: Duration::from_secs(10),
            channel_capacity: DEFAULT_CHANNEL_CAPACITY,
            compatibility_mode: CompatibilityMode::Compatible,
            reconnect_policy: ReconnectPolicy::Never,
        }
    }

    /// Sets the authentication used during the handshake.
    pub fn auth(self, auth: Auth) -> (r: ClientBuilder)
        ensures
            r@ == (BuilderData { auth: Some(auth), ..self@ }),
    {
        ClientBuilder { auth: Some(auth), ..self }
    }

    /// Sets the `Origin` header, replacing any earlier value.
    pub fn origin(self, origin: &str) -> (r: ClientBuilder)
        ensures
            r@ == (BuilderData { origin: Some(origin@), ..self@ }),
    {
        ClientBuilder { origin: Some(origin.to_owned()), ..self }
    }

    /// Sets the maximum time a call waits for its response.
    pub fn request_timeout(self, timeout: Duration) -> (r: ClientBuilder)
        ensures
            r@ == (BuilderData { request_timeout: timeout@, ..self@ }),
    {
        ClientBuilder { request_timeout: timeout, ..self }
    }

    /// Sets the capacity of the outbound request queue.
    pub fn channel_capacity(self, capacity: usize) -> (r: ClientBuilder)
        ensures
            r@ == (BuilderData { channel_capacity: capacity, ..self@ }),
    {
        ClientBuilder { channel_capacity: capacity, ..self }
    }

    /// Sets the discovery-aware invocation policy.
    pub fn compatibility_mode(self, mode: CompatibilityMode) -> (r: ClientBuilder)
        ensures
            r@ == (BuilderData { compatibility_mode: mode, ..self@ }),
    {
        ClientBuilder { compatibility_mode: mode, ..self }
    }

    /// Sets automatic reconnection behavior.
    pub fn reconnect_policy(self, policy: ReconnectPolicy) -> (r: ClientBuilder)
        ensures
            r@ == (BuilderData { reconnect_policy: policy, ..self@ }),
    {
        ClientBuilder { reconnect_policy: policy, ..self }
    }

    /// Checks the settings; the first problem found is reported.
    pub fn validate(&self) -> (r: Result<(), Error>)
        ensures
            match r {
                Ok(()) => builder_problem(self@) is None,
                Err(e) => builder_problem(self@) matches Some(p) && reports(e, p),
            },
    {
        let scheme = self.endpoint.scheme();
        if !(str_eq(scheme, "ws") || str_eq(scheme, "wss")) {
            let mut m = String::new();
            push_str(&mut m, "MCSMP endpoint scheme must be ws or wss, got `");
            push_str(&mut m, scheme);
            push_str(&mut m, "`");
            return Err(Error::Configuration(m));
        }
        if self.endpoint.host_str().is_none() {
            return Err(Error::Configuration("MCSMP endpoint must include a host".to_owned()));
        }
        if self.auth.is_none() {
            return Err(Error::AuthenticationNotConfigured);
        }
        if self.request_timeout.is_zero() {
            return Err(
                Error::Configuration("request timeout must be greater than zero".to_owned()),
            );
        }
        if self.channel_capacity == 0 {
            return Err(
                Error::Configuration("channel capacity must be greater than zero".to_owned()),
            );
        }
        match self.reconnect_policy.validate() {
            Ok(()) => Ok(()),
            Err(m) => Err(Error::Configuration(m)),
        }
    }

    /// Validates the settings and turns them into a session configuration.
    pub fn into_config(self) -> (r: Result<ClientConfig, Error>)
        ensures
            match r {
                Ok(c) => builder_problem(self@) is None && self@.auth == Some(c.websocket.auth)
                    && c.request_timeout@ == self@.request_timeout && c.channel_capacity
                    == self@.channel_capacity && c.compatibility_mode == self@.compatibility_mode
                    && c.reconnect_policy == self@.reconnect_policy && c.websocket.endpoint@
                    == self@.endpoint && match c.websocket.origin {
                    Some(o) => self@.origin == Some(o@),
                    None => self@.origin is None,
                },
                Err(e) => builder_problem(self@) matches Some(p) && reports(e, p),
            },
    {
        if let Err(e) = self.validate() {
            return Err(e);
        }
        let ClientBuilder {
            endpoint,
            auth,
            origin,
            request_timeout,
            channel_capacity,
            compatibility_mode,
            reconnect_policy,
        } = self;
        match auth {
            Some(auth) => Ok(
                ClientConfig {
                    request_timeout,
                    channel_capacity,
                    compatibility_mode,
                    reconnect_policy,
                    websocket: WebSocketConfig::new(endpoint, auth, origin),
                },
            ),
            None => Err(Error::AuthenticationNotConfigured),
        }
    }

    /// The handshake headers a validated builder would send.
    pub fn handshake_headers(&self) -> (r: Result<Vec<(String, String)>, Error>)
        ensures
            match r {
                Ok(h) => builder_problem(self@) is None && headers_view(h@)
                    == handshake_headers_spec(self@.auth.unwrap(), self@.origin),
                Err(e) => builder_problem(self@) matches Some(p) && reports(e, p),
            },
    {
        if let Err(e) = self.validate() {
            return Err(e);
        }
        match &self.auth {
            Some(auth) => Ok(headers_for(auth, &self.origin)),
            None => Err(Error::AuthenticationNotConfigured),
        }
    }
}

/// The error of a failed WebSocket connection attempt: an HTTP 401 answer
/// to the upgrade is an authentication rejection; anything else is a
/// transport failure described by `description`.
pub fn connection_error(http_status: Option<u16>, description: String) -> (e: Error)
    ensures
        http_status == Some(401u16) ==> e == (Error::AuthenticationRejected { status: 401 }),
        http_status != Some(401u16) ==> e == Error::Transport(description),
{
    match http_status {
        Some(401) => Error::AuthenticationRejected { status: 401 },
        _ => Error::Transport(description),
    }
}

} // verus!
