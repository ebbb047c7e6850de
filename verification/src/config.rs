//! Agent configuration.

use crate::error::Phase;
use crate::proxy::{arc_clone, Proxy};
use crate::resolver::IpFamily;
use crate::time::duration_nanos;
use std::sync::Arc;
use std::time::Duration;
use vstd::prelude::*;

verus! {

/// What is sent as `User-Agent` where the setting is [`AutoHeaderValue::Default`].
pub const DEFAULT_USER_AGENT: &'static str = "ureq_core/0.1.0";

/// What is sent as `Accept` where the setting is [`AutoHeaderValue::Default`].
pub const DEFAULT_ACCEPT: &'static str = "*/*";

/// What is sent as `Accept-Encoding` where the setting is [`AutoHeaderValue::Default`].
pub const DEFAULT_ACCEPT_ENCODING: &'static str = "gzip, br";

/// Whether the `Authorization` header follows a redirect.
#[derive(Debug, Clone, Copy, PartialEq, Eq, Structural)]
pub enum RedirectAuthHeaders {
    /// The header is never sent to the target of a redirect.
    Never,
    /// The header is kept where the target is the same host and port, under https.
    SameHost,
}

/// Possible config values for automatically added headers.
#[derive(Debug)]
pub enum AutoHeaderValue {
    /// No automatic header.
    Absent,
    /// Default behavior, a value that the library picks.
    Default,
    /// User provided header value.
    Provided(Arc<String>),
}

impl Default for AutoHeaderValue {
    fn default() -> (r: Self)
        ensures
            r == AutoHeaderValue::Default,
    {
        AutoHeaderValue::Default
    }
}

impl Clone for AutoHeaderValue {
    fn clone(&self) -> (r: Self)
        ensures
            r == *self,
    {
        match self {
            AutoHeaderValue::Absent => AutoHeaderValue::Absent,
            AutoHeaderValue::Default => AutoHeaderValue::Default,
            AutoHeaderValue::Provided(v) => AutoHeaderValue::Provided(arc_clone(v)),
        }
    }
}

impl AutoHeaderValue {
    /// The text this setting stands for, given the library's `default`.
    pub open spec fn text(self, default: Seq<char>) -> Seq<char> {
        match self {
            AutoHeaderValue::Absent => Seq::empty(),
            AutoHeaderValue::Default => default,
            AutoHeaderValue::Provided(v) => v@,
        }
    }

    /// The header value to send: the text the setting stands for, and
    /// `None` where that text is empty, in which case no header is sent.
    pub fn as_str<'a>(&'a self, default: &'static str) -> (r: Option<&'a str>)
        ensures
            self.text(default@).len() == 0 ==> r is None,
            self.text(default@).len() > 0 ==> r is Some && r->0@ == self.text(default@),
    {
        let x: &str = match self {
            AutoHeaderValue::Absent => "",
            AutoHeaderValue::Default => default,
            AutoHeaderValue::Provided(v) => v.as_str(),
        };
        proof {
            reveal_strlit("");
        }
        if x.is_empty() {
            None
        } else {
            Some(x)
        }
    }
}

/// Request timeout configuration.
///
/// This can be configured both on agent level as well as per request.
#[derive(Debug, Clone, Copy)]
pub struct Timeouts {
    /// Timeout for the entire call
    pub global: Option<Duration>,
    /// Timeout for call-by-call when following redirects
    pub per_call: Option<Duration>,
    /// Max duration for doing the DNS lookup when establishing the connection
    pub resolve: Option<Duration>,
    /// Max duration for establishing the connection
    pub connect: Option<Duration>,
    /// Max duration for sending the request, but not the request body.
    pub send_request: Option<Duration>,
    /// Max duration for awaiting a 100-continue response.
    pub await_100: Option<Duration>,
    /// Max duration for sending a request body (if there is one)
    pub send_body: Option<Duration>,
    /// Max duration for receiving the response headers, but not the body
    pub recv_response: Option<Duration>,
    /// Max duration for receving the response body.
    pub recv_body: Option<Duration>,
}

impl Timeouts {
    /// The timeouts of a call that sets none: one second to await a
    /// `100 Continue`, and no other limit.
    pub open spec fn is_default(self) -> bool {
        &&& self.global is None
        &&& self.per_call is None
        &&& self.resolve is None
        &&& self.connect is None
        &&& self.send_request is None
        &&& self.await_100 is Some
        &&& duration_nanos(self.await_100->0) == 1_000_000_000
        &&& self.send_body is None
        &&& self.recv_response is None
        &&& self.recv_body is None
    }
}

impl Timeouts {
    /// The timeout that is set for `phase`.
    pub open spec fn for_phase(self, phase: Phase) -> Option<Duration> {
        match phase {
            Phase::Global => self.global,
            Phase::PerCall => self.per_call,
            Phase::Resolve => self.resolve,
            Phase::Connect => self.connect,
            Phase::SendRequest => self.send_request,
            Phase::Await100 => self.await_100,
            Phase::SendBody => self.send_body,
            Phase::RecvResponse => self.recv_response,
            Phase::RecvBody => self.recv_body,
        }
    }

    /// The timeout that is set for `phase`.
    pub fn of(&self, phase: Phase) -> (r: Option<Duration>)
        ensures
            r == self.for_phase(phase),
    {
        match phase {
            Phase::Global => self.global,
            Phase::PerCall => self.per_call,
            Phase::Resolve => self.resolve,
            Phase::Connect => self.connect,
            Phase::SendRequest => self.send_request,
            Phase::Await100 => self.await_100,
            Phase::SendBody => self.send_body,
            Phase::RecvResponse => self.recv_response,
            Phase::RecvBody => self.recv_body,
        }
    }
}

impl Default for Timeouts {
    fn default() -> (r: Self)
        ensures
            r.is_default(),
    {
        Timeouts {
            global: None,
            per_call: None,
            resolve: None,
            connect: None,
            send_request: None,
            await_100: Some(Duration::from_secs(1)),
            send_body: None,
            recv_response: None,
            recv_body: None,
        }
    }
}

/// Config primarily for the agent, but also per-request.
///
/// Config objects are cheap to clone: their strings and their proxy are
/// shared, not copied.
#[derive(Debug)]
pub struct Config {
    pub http_status_as_error: bool,
    pub https_only: bool,
    pub ip_family: IpFamily,
    pub proxy: Option<Proxy>,
    pub no_delay: bool,
    pub max_redirects: u32,
    pub redirect_auth_headers: RedirectAuthHeaders,
    pub user_agent: AutoHeaderValue,
    pub accept: AutoHeaderValue,
    pub accept_encoding: AutoHeaderValue,
    pub timeouts: Timeouts,
    pub max_response_header_size: usize,
    pub input_buffer_size: usize,
    pub output_buffer_size: usize,
    pub max_idle_connections: usize,
    pub max_idle_connections_per_host: usize,
    pub max_idle_age: Duration,
    /// Not a setting: tells the run that the body is sent whatever the method.
    pub force_send_body: bool,
}

impl Config {
    /// The values of a config in which nothing was set.
    pub open spec fn is_default(self) -> bool {
        &&& self.http_status_as_error
        &&& !self.https_only
        &&& self.ip_family == IpFamily::Any
        &&& self.proxy is None
        &&& self.no_delay
        &&& self.max_redirects == 10
        &&& self.redirect_auth_headers == RedirectAuthHeaders::Never
        &&& self.user_agent == AutoHeaderValue::Default
        &&& self.accept == AutoHeaderValue::Default
        &&& self.accept_encoding == AutoHeaderValue::Default
        &&& self.timeouts.is_default()
        &&& self.max_response_header_size == 65536
        &&& self.input_buffer_size == 131072
        &&& self.output_buffer_size == 131072
        &&& self.max_idle_connections == 10
        &&& self.max_idle_connections_per_host == 3
        &&& duration_nanos(self.max_idle_age) == 15_000_000_000
        &&& !self.force_send_body
    }

    /// A builder to make a bespoke configuration.
    ///
    /// The default values are already set.
    pub fn builder() -> (r: ConfigBuilder<AgentScope>)
        ensures
            r.config.is_default(),
    {
        ConfigBuilder { scope: AgentScope, config: Config::default() }
    }

    /// The proxy's URI, where a proxy is set and it is one that opens tunnels.
    pub open spec fn connect_proxy(self) -> Option<http::Uri> {
        match self.proxy {
            Some(p) => if p.proto.connects() {
                Some(*p.uri)
            } else {
                None
            },
            None => None,
        }
    }

    /// The URI of the proxy to open a tunnel through, if the config has one.
    pub fn connect_proxy_uri(&self) -> (r: Option<&http::Uri>)
        ensures
            match r {
                Some(uri) => self.connect_proxy() == Some(*uri),
                None => self.connect_proxy() is None,
            },
    {
        match &self.proxy {
            Some(proxy) => {
                if !proxy.proto().is_connect() {
                    return None;
                }
                Some(proxy.uri())
            },
            None => None,
        }
    }

    /// The `User-Agent` value to send, if any.
    pub fn user_agent_value(&self) -> (r: Option<&str>)
        ensures
            self.user_agent.text(DEFAULT_USER_AGENT@).len() == 0 ==> r is None,
            self.user_agent.text(DEFAULT_USER_AGENT@).len() > 0 ==> r is Some && r->0@
                == self.user_agent.text(DEFAULT_USER_AGENT@),
    {
        self.user_agent.as_str(DEFAULT_USER_AGENT)
    }

    /// The `Accept` value to send, if any.
    pub fn accept_value(&self) -> (r: Option<&str>)
        ensures
            self.accept.text(DEFAULT_ACCEPT@).len() == 0 ==> r is None,
            self.accept.text(DEFAULT_ACCEPT@).len() > 0 ==> r is Some && r->0@ == self.accept.text(
                DEFAULT_ACCEPT@,
            ),
    {
        self.accept.as_str(DEFAULT_ACCEPT)
    }

    /// The `Accept-Encoding` value to send, if any.
    pub fn accept_encoding_value(&self) -> (r: Option<&str>)
        ensures
            self.accept_encoding.text(DEFAULT_ACCEPT_ENCODING@).len() == 0 ==> r is None,
            self.accept_encoding.text(DEFAULT_ACCEPT_ENCODING@).len() > 0 ==> r is Some && r->0@
                == self.accept_encoding.text(DEFAULT_ACCEPT_ENCODING@),
    {
        self.accept_encoding.as_str(DEFAULT_ACCEPT_ENCODING)
    }
}

impl Default for Config {
    /// The config in which nothing was set. No proxy is set: a caller that
    /// wants the one of its environment sets it with the builder.
    fn default() -> (r: Self)
        ensures
            r.is_default(),
    {
        Config {
            http_status_as_error: true,
            https_only: false,
            ip_family: IpFamily::Any,
            proxy: None,
            no_delay: true,
            max_redirects: 10,
            redirect_auth_headers: RedirectAuthHeaders::Never,
            user_agent: AutoHeaderValue::default(),
            accept: AutoHeaderValue::default(),
            accept_encoding: AutoHeaderValue::default(),
            timeouts: Timeouts::default(),
            max_response_header_size: 64 * 1024,
            input_buffer_size: 128 * 1024,
            output_buffer_size: 128 * 1024,
            max_idle_connections: 10,
            max_idle_connections_per_host: 3,
            max_idle_age: Duration::from_secs(15),
            force_send_body: false,
        }
    }
}

impl Clone for Config {
    fn clone(&self) -> (r: Self)
        ensures
            r == *self,
    {
        Config {
            http_status_as_error: self.http_status_as_error,
            https_only: self.https_only,
            ip_family: self.ip_family,
            proxy: match &self.proxy {
                Some(p) => Some(p.clone()),
                None => None,
            },
            no_delay: self.no_delay,
            max_redirects: self.max_redirects,
            redirect_auth_headers: self.redirect_auth_headers,
            user_agent: self.user_agent.clone(),
            accept: self.accept.clone(),
            accept_encoding: self.accept_encoding.clone(),
            timeouts: self.timeouts,
            max_response_header_size: self.max_response_header_size,
            input_buffer_size: self.input_buffer_size,
            output_buffer_size: self.output_buffer_size,
            max_idle_connections: self.max_idle_connections,
            max_idle_connections_per_host: self.max_idle_connections_per_host,
            max_idle_age: self.max_idle_age,
            force_send_body: self.force_send_body,
        }
    }
}

/// The config of one request: a copy of the agent's, with what the request
/// overrides.
#[derive(Debug)]
pub struct RequestLevelConfig(pub Config);

impl Clone for RequestLevelConfig {
    fn clone(&self) -> (r: Self)
        ensures
            r == *self,
    {
        RequestLevelConfig(self.0.clone())
    }
}

/// The scope of a builder that makes an agent's config.
pub struct AgentScope;

/// Builder of [`Config`]. The builder holds the config that it changes, and
/// the scope that the config is for: an agent, or a request.
pub struct ConfigBuilder<Scope> {
    pub scope: Scope,
    pub config: Config,
}

impl<Scope> ConfigBuilder<Scope> {
    /// A builder that starts from `config`, for `scope`.
    pub fn new(scope: Scope, config: Config) -> (r: Self)
        ensures
            r.scope == scope,
            r.config == config,
    {
        ConfigBuilder { scope, config }
    }

    /// Whether to treat 4xx and 5xx HTTP status codes as errors.
    ///
    /// Defaults to `true`.
    pub fn http_status_as_error(self, v: bool) -> (r: Self)
        ensures
            r.config == (Config { http_status_as_error: v, ..self.config }),
            r.scope == self.scope,
    {
        let mut s = self;
        s.config.http_status_as_error = v;
        s
    }

    /// Whether to limit requests, redirects included, to https.
    ///
    /// Defaults to `false`.
    pub fn https_only(self, v: bool) -> (r: Self)
        ensures
            r.config == (Config { https_only: v, ..self.config }),
            r.scope == self.scope,
    {
        let mut s = self;
        s.config.https_only = v;
        s
    }

    /// Which kinds of address the resolver hands out.
    ///
    /// Defaults to `IpFamily::Any`.
    pub fn ip_family(self, v: IpFamily) -> (r: Self)
        ensures
            r.config == (Config { ip_family: v, ..self.config }),
            r.scope == self.scope,
    {
        let mut s = self;
        s.config.ip_family = v;
        s
    }

    /// Proxy configuration.
    ///
    /// Defaults to no proxy.
    pub fn proxy(self, v: Option<Proxy>) -> (r: Self)
        ensures
            r.config == (Config { proxy: v, ..self.config }),
            r.scope == self.scope,
    {
        let mut s = self;
        s.config.proxy = v;
        s
    }

    /// Disable Nagle's algorithm.
    ///
    /// Sets TCP_NODELAY. It is up to the transport whether the flag is honored.
    ///
    /// Defaults to `true`.
    pub fn no_delay(self, v: bool) -> (r: Self)
        ensures
            r.config == (Config { no_delay: v, ..self.config }),
            r.scope == self.scope,
    {
        let mut s = self;
        s.config.no_delay = v;
        s
    }

    /// The max number of redirects to follow before giving up.
    ///
    /// Defaults to 10.
    pub fn max_redirects(self, v: u32) -> (r: Self)
        ensures
            r.config == (Config { max_redirects: v, ..self.config }),
            r.scope == self.scope,
    {
        let mut s = self;
        s.config.max_redirects = v;
        s
    }

    /// How to handle `Authorization` headers when following redirects.
    ///
    /// Defaults to `Never`.
    pub fn redirect_auth_headers(self, v: RedirectAuthHeaders) -> (r: Self)
        ensures
            r.config == (Config { redirect_auth_headers: v, ..self.config }),
            r.scope == self.scope,
    {
        let mut s = self;
        s.config.redirect_auth_headers = v;
        s
    }

    /// Value to use for the `User-Agent` header.
    ///
    /// A value of `""` sends no header.
    ///
    /// Defaults to `Default`, which gives the library's name and version.
    pub fn user_agent(self, v: AutoHeaderValue) -> (r: Self)
        ensures
            r.config == (Config { user_agent: v, ..self.config }),
            r.scope == self.scope,
    {
        let mut s = self;
        s.config.user_agent = v;
        s
    }

    /// Value to use for the `Accept` header.
    ///
    /// A value of `""` sends no header.
    ///
    /// Defaults to `Default`, which gives `*/*`.
    pub fn accept(self, v: AutoHeaderValue) -> (r: Self)
        ensures
            r.config == (Config { accept: v, ..self.config }),
            r.scope == self.scope,
    {
        let mut s = self;
        s.config.accept = v;
        s
    }

    /// Value to use for the `Accept-Encoding` header.
    ///
    /// A value of `""` sends no header. The setting tells the server what
    /// the client can decode; what is decoded goes by the response's
    /// `Content-Encoding` alone.
    ///
    /// Defaults to `Default`, which gives `gzip, br`.
    pub fn accept_encoding(self, v: AutoHeaderValue) -> (r: Self)
        ensures
            r.config == (Config { accept_encoding: v, ..self.config }),
            r.scope == self.scope,
    {
        let mut s = self;
        s.config.accept_encoding = v;
        s
    }

    /// Max size of the HTTP response header, from the status line to the
    /// end of the headers.
    ///
    /// Defaults to 64kb.
    pub fn max_response_header_size(self, v: usize) -> (r: Self)
        ensures
            r.config == (Config { max_response_header_size: v, ..self.config }),
            r.scope == self.scope,
    {
        let mut s = self;
        s.config.max_response_header_size = v;
        s
    }

    /// Default size of the input buffer.
    ///
    /// Defaults to 128kb.
    pub fn input_buffer_size(self, v: usize) -> (r: Self)
        ensures
            r.config == (Config { input_buffer_size: v, ..self.config }),
            r.scope == self.scope,
    {
        let mut s = self;
        s.config.input_buffer_size = v;
        s
    }

    /// Default size of the output buffer.
    ///
    /// Defaults to 128kb.
    pub fn output_buffer_size(self, v: usize) -> (r: Self)
        ensures
            r.config == (Config { output_buffer_size: v, ..self.config }),
            r.scope == self.scope,
    {
        let mut s = self;
        s.config.output_buffer_size = v;
        s
    }

    /// Max number of idle pooled connections overall.
    ///
    /// Defaults to 10.
    pub fn max_idle_connections(self, v: usize) -> (r: Self)
        ensures
            r.config == (Config { max_idle_connections: v, ..self.config }),
            r.scope == self.scope,
    {
        let mut s = self;
        s.config.max_idle_connections = v;
        s
    }

    /// Max number of idle pooled connections per host/port combo.
    ///
    /// Defaults to 3.
    pub fn max_idle_connections_per_host(self, v: usize) -> (r: Self)
        ensures
            r.config == (Config { max_idle_connections_per_host: v, ..self.config }),
            r.scope == self.scope,
    {
        let mut s = self;
        s.config.max_idle_connections_per_host = v;
        s
    }

    /// Max duration to keep an idle connection in the pool.
    ///
    /// Defaults to 15 seconds.
    pub fn max_idle_age(self, v: Duration) -> (r: Self)
        ensures
            r.config == (Config { max_idle_age: v, ..self.config }),
            r.scope == self.scope,
    {
        let mut s = self;
        s.config.max_idle_age = v;
        s
    }

    /// Timeout for the entire call, from the DNS lookup to the end of the
    /// response body. It covers all other timeouts.
    ///
    /// Defaults to `None`.
    pub fn timeout_global(self, v: Option<Duration>) -> (r: Self)
        ensures
            r.config == (Config {
                timeouts: Timeouts { global: v, ..self.config.timeouts },
                ..self.config
            }),
            r.scope == self.scope,
    {
        let mut s = self;
        s.config.timeouts.global = v;
        s
    }

    /// Timeout for call-by-call when following redirects: it starts
    /// anew with each redirect.
    ///
    /// Defaults to `None`.
    pub fn timeout_per_call(self, v: Option<Duration>) -> (r: Self)
        ensures
            r.config == (Config {
                timeouts: Timeouts { per_call: v, ..self.config.timeouts },
                ..self.config
            }),
            r.scope == self.scope,
    {
        let mut s = self;
        s.config.timeouts.per_call = v;
        s
    }

    /// Max duration for doing the DNS lookup when establishing the connection.
    ///
    /// Defaults to `None`.
    pub fn timeout_resolve(self, v: Option<Duration>) -> (r: Self)
        ensures
            r.config == (Config {
                timeouts: Timeouts { resolve: v, ..self.config.timeouts },
                ..self.config
            }),
            r.scope == self.scope,
    {
        let mut s = self;
        s.config.timeouts.resolve = v;
        s
    }

    /// Max duration for establishing the connection, the TLS handshake
    /// included.
    ///
    /// Defaults to `None`.
    pub fn timeout_connect(self, v: Option<Duration>) -> (r: Self)
        ensures
            r.config == (Config {
                timeouts: Timeouts { connect: v, ..self.config.timeouts },
                ..self.config
            }),
            r.scope == self.scope,
    {
        let mut s = self;
        s.config.timeouts.connect = v;
        s
    }

    /// Max duration for sending the request, but not the request body.
    ///
    /// Defaults to `None`.
    pub fn timeout_send_request(self, v: Option<Duration>) -> (r: Self)
        ensures
            r.config == (Config {
                timeouts: Timeouts { send_request: v, ..self.config.timeouts },
                ..self.config
            }),
            r.scope == self.scope,
    {
        let mut s = self;
        s.config.timeouts.send_request = v;
        s
    }

    /// Max duration for awaiting a 100-continue response.
    ///
    /// Defaults to 1 second.
    pub fn timeout_await_100(self, v: Option<Duration>) -> (r: Self)
        ensures
            r.config == (Config {
                timeouts: Timeouts { await_100: v, ..self.config.timeouts },
                ..self.config
            }),
            r.scope == self.scope,
    {
        let mut s = self;
        s.config.timeouts.await_100 = v;
        s
    }

    /// Max duration for sending a request body (if there is one).
    ///
    /// Defaults to `None`.
    pub fn timeout_send_body(self, v: Option<Duration>) -> (r: Self)
        ensures
            r.config == (Config {
                timeouts: Timeouts { send_body: v, ..self.config.timeouts },
                ..self.config
            }),
            r.scope == self.scope,
    {
        let mut s = self;
        s.config.timeouts.send_body = v;
        s
    }

    /// Max duration for receiving the response headers, but not the body.
    ///
    /// Defaults to `None`.
    pub fn timeout_recv_response(self, v: Option<Duration>) -> (r: Self)
        ensures
            r.config == (Config {
                timeouts: Timeouts { recv_response: v, ..self.config.timeouts },
                ..self.config
            }),
            r.scope == self.scope,
    {
        let mut s = self;
        s.config.timeouts.recv_response = v;
        s
    }

    /// Max duration for receiving the response body.
    ///
    /// Defaults to `None`.
    pub fn timeout_recv_body(self, v: Option<Duration>) -> (r: Self)
        ensures
            r.config == (Config {
                timeouts: Timeouts { recv_body: v, ..self.config.timeouts },
                ..self.config
            }),
            r.scope == self.scope,
    {
        let mut s = self;
        s.config.timeouts.recv_body = v;
        s
    }
}

impl ConfigBuilder<AgentScope> {
    /// Finalize the config.
    pub fn build(self) -> (r: Config)
        ensures
            r == self.config,
    {
        self.config
    }
}

} // verus!
