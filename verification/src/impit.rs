//! The request dispatcher.
//!
//! One request runs through validation, transport negotiation, header
//! composition and client selection; the network itself is driven from
//! outside against the plans handed out here.  The flow of one request:
//! ask [`Impit::begin_request`] for a plan; when it asks for a probe,
//! resolve the host's HTTPS DNS record, record the outcome with
//! [`Impit::record_probe_result`] and ask again; after a successful
//! exchange feed the response's Alt-Svc header back through
//! [`Impit::on_response`]; after a failed send let
//! [`Impit::on_send_failure`] decide between the vanilla retry and the
//! error to surface.

use vstd::prelude::*;
use crate::emulation::Browser;
use crate::http3::H3Engine;
use crate::http3::alt_svc_observed;
use crate::http3::probe_recorded;
use crate::http_headers::HttpHeaders;
use crate::http_headers::composed_headers;
use crate::http_headers::pairs_view;
use crate::http_headers::profile_headers_spec;
use crate::http_headers::profile_pseudo_order_spec;
use crate::http_headers::strings_view;
use crate::request::RequestOptions;
use crate::tls::TlsConfig;
use crate::tls::alpn_spec;
use crate::tls::emulated_browser_version;
use crate::tls::profile_kx_groups_spec;

verus! {

/// The failures a request can end in.
#[derive(PartialEq, Eq, Structural, Debug, Clone, Copy)]
pub enum ErrorType {
    /// The URL couldn't be parsed.
    UrlParsingError,
    /// The URL is missing the hostname.
    UrlMissingHostnameError,
    /// The URL uses an unsupported protocol.
    UrlProtocolError,
    /// The request was made with `http3_prior_knowledge`, but HTTP/3 usage
    /// wasn't enabled.
    Http3Disabled,
    /// The impersonated send failed and no vanilla fallback applies.
    ImpersonationError,
    /// The send failed even through the vanilla client.
    TransportError,
}

/// How the client follows redirects.
#[derive(PartialEq, Eq, Structural, Debug, Clone, Copy)]
pub enum RedirectBehavior {
    /// Follow up to this many redirects.
    FollowRedirect(usize),
    /// Don't follow any redirects: the first response is returned, even
    /// with a `3xx` status code.
    ManualRedirect,
}

/// The highest HTTP version the client may negotiate.
#[derive(PartialEq, Eq, Structural, Debug, Clone, Copy)]
pub enum HttpVersion {
    Http2,
    Http3,
}

/// The transport tier a request is sent over.
#[derive(PartialEq, Eq, Structural, Debug, Clone, Copy)]
pub enum Transport {
    /// HTTP/3 over QUIC.
    Quic,
    /// HTTP/2 or HTTP/1.1 over TCP.
    Tcp,
}

/// What the URL parser found: the scheme, and the host when there is one.
pub struct UrlParts {
    pub scheme: String,
    pub host: Option<String>,
}

/// The spec-level image of a parsed URL.
pub struct UrlSpec {
    pub scheme: Seq<char>,
    pub host: Option<Seq<char>>,
}

/// What parsing a URL string yields: scheme and host on success, nothing
/// when the string is not a URL.
pub uninterp spec fn url_parse_of(s: Seq<char>) -> Option<UrlSpec>;

/// The parsed parts agree with the spec-level image.
pub open spec fn url_parts_match(p: UrlParts, q: UrlSpec) -> bool {
    &&& p.scheme@ == q.scheme
    &&& match (p.host, q.host) {
        (Some(a), Some(b)) => a@ == b,
        (None, None) => true,
        _ => false,
    }
}

/// Relies on `url::Url::parse`, `Url::scheme` and `Url::host_str`: parsing
/// depends on the input string alone; the scheme and the optional host
/// come back as plain strings.
#[verifier::external_body]
fn url_parse(s: &str) -> (r: Option<UrlParts>)
    ensures
        match (r, url_parse_of(s@)) {
            (Some(p), Some(q)) => url_parts_match(p, q),
            (None, None) => true,
            _ => false,
        },
{
    match url::Url::parse(s) {
        Ok(u) => Some(
            UrlParts {
                scheme: u.scheme().to_string(),
                host: u.host_str().map(|h| h.to_string()),
            },
        ),
        Err(_) => None,
    }
}

/// The input error a URL draws, if any: not parseable, no hostname, or a
/// scheme outside http and https.
pub open spec fn spec_url_error(parsed: Option<UrlSpec>) -> Option<ErrorType> {
    match parsed {
        None => Some(ErrorType::UrlParsingError),
        Some(q) => match q.host {
            None => Some(ErrorType::UrlMissingHostnameError),
            Some(h) => if q.scheme == "http"@ || q.scheme == "https"@ {
                None
            } else {
                Some(ErrorType::UrlProtocolError)
            },
        },
    }
}

/// Process-lifetime configuration of a dispatcher, collected builder-style.
pub struct ImpitBuilder {
    browser: Option<Browser>,
    ignore_tls_errors: bool,
    vanilla_fallback: bool,
    proxy_url: String,
    request_timeout: u64,
    max_http_version: HttpVersion,
    redirect: RedirectBehavior,
}

impl ImpitBuilder {
    /// The browser to impersonate, if any.
    pub closed spec fn spec_browser(&self) -> Option<Browser> {
        self.browser
    }

    /// Whether TLS errors are ignored.
    pub closed spec fn spec_ignore_tls_errors(&self) -> bool {
        self.ignore_tls_errors
    }

    /// Whether a failed impersonated send is retried through a vanilla
    /// client.
    pub closed spec fn spec_vanilla_fallback(&self) -> bool {
        self.vanilla_fallback
    }

    /// The proxy URL; empty means none.
    pub closed spec fn spec_proxy_url(&self) -> Seq<char> {
        self.proxy_url@
    }

    /// The default request timeout, in milliseconds.
    pub closed spec fn spec_request_timeout(&self) -> u64 {
        self.request_timeout
    }

    /// The highest HTTP version to negotiate.
    pub closed spec fn spec_max_http_version(&self) -> HttpVersion {
        self.max_http_version
    }

    /// The redirect policy.
    pub closed spec fn spec_redirect(&self) -> RedirectBehavior {
        self.redirect
    }

    /// Sets the browser to impersonate.
    pub fn with_browser(self, browser: Browser) -> (r: Self)
        ensures
            r.spec_browser() == Some(browser),
            unchanged_but_browser(self, r),
    {
        ImpitBuilder { browser: Some(browser), ..self }
    }

    /// If set to true, the client will ignore TLS-related errors.
    pub fn with_ignore_tls_errors(self, ignore_tls_errors: bool) -> (r: Self)
        ensures
            r.spec_ignore_tls_errors() == ignore_tls_errors,
            r.spec_browser() == self.spec_browser(),
            r.spec_vanilla_fallback() == self.spec_vanilla_fallback(),
            r.spec_proxy_url() == self.spec_proxy_url(),
            r.spec_request_timeout() == self.spec_request_timeout(),
            r.spec_max_http_version() == self.spec_max_http_version(),
            r.spec_redirect() == self.spec_redirect(),
    {
        ImpitBuilder { ignore_tls_errors, ..self }
    }

    /// If set to true, a failed impersonated send is retried without
    /// impersonation.
    pub fn with_fallback_to_vanilla(self, vanilla_fallback: bool) -> (r: Self)
        ensures
            r.spec_vanilla_fallback() == vanilla_fallback,
            r.spec_browser() == self.spec_browser(),
            r.spec_ignore_tls_errors() == self.spec_ignore_tls_errors(),
            r.spec_proxy_url() == self.spec_proxy_url(),
            r.spec_request_timeout() == self.spec_request_timeout(),
            r.spec_max_http_version() == self.spec_max_http_version(),
            r.spec_redirect() == self.spec_redirect(),
    {
        ImpitBuilder { vanilla_fallback, ..self }
    }

    /// Sets the proxy URL used for all requests of the built client.
    pub fn with_proxy(self, proxy_url: String) -> (r: Self)
        ensures
            r.spec_proxy_url() == proxy_url@,
            r.spec_browser() == self.spec_browser(),
            r.spec_ignore_tls_errors() == self.spec_ignore_tls_errors(),
            r.spec_vanilla_fallback() == self.spec_vanilla_fallback(),
            r.spec_request_timeout() == self.spec_request_timeout(),
            r.spec_max_http_version() == self.spec_max_http_version(),
            r.spec_redirect() == self.spec_redirect(),
    {
        ImpitBuilder { proxy_url, ..self }
    }

    /// Sets the default timeout, in milliseconds; a per-request option can
    /// override it.
    pub fn with_default_timeout(self, timeout: u64) -> (r: Self)
        ensures
            r.spec_request_timeout() == timeout,
            r.spec_browser() == self.spec_browser(),
            r.spec_ignore_tls_errors() == self.spec_ignore_tls_errors(),
            r.spec_vanilla_fallback() == self.spec_vanilla_fallback(),
            r.spec_proxy_url() == self.spec_proxy_url(),
            r.spec_max_http_version() == self.spec_max_http_version(),
            r.spec_redirect() == self.spec_redirect(),
    {
        ImpitBuilder { request_timeout: timeout, ..self }
    }

    /// Enables HTTP/3: hosts are probed through their HTTPS DNS records
    /// and promoted through Alt-Svc headers.
    pub fn with_http3(self) -> (r: Self)
        ensures
            r.spec_max_http_version() == HttpVersion::Http3,
            r.spec_browser() == self.spec_browser(),
            r.spec_ignore_tls_errors() == self.spec_ignore_tls_errors(),
            r.spec_vanilla_fallback() == self.spec_vanilla_fallback(),
            r.spec_proxy_url() == self.spec_proxy_url(),
            r.spec_request_timeout() == self.spec_request_timeout(),
            r.spec_redirect() == self.spec_redirect(),
    {
        ImpitBuilder { max_http_version: HttpVersion::Http3, ..self }
    }

    /// Sets the redirect policy.
    pub fn with_redirect(self, behavior: RedirectBehavior) -> (r: Self)
        ensures
            r.spec_redirect() == behavior,
            r.spec_browser() == self.spec_browser(),
            r.spec_ignore_tls_errors() == self.spec_ignore_tls_errors(),
            r.spec_vanilla_fallback() == self.spec_vanilla_fallback(),
            r.spec_proxy_url() == self.spec_proxy_url(),
            r.spec_request_timeout() == self.spec_request_timeout(),
            r.spec_max_http_version() == self.spec_max_http_version(),
    {
        ImpitBuilder { redirect: behavior, ..self }
    }

    /// Builds the dispatcher.
    pub fn build(self) -> (r: Impit)
        ensures
            same_config(&r, &self),
            r.wf(),
            forall|h: Seq<char>| r.spec_h3_status(h) is None,
    {
        Impit::new(self)
    }
}

/// All settings other than the browser are unchanged.
pub open spec fn unchanged_but_browser(a: ImpitBuilder, r: ImpitBuilder) -> bool {
    &&& r.spec_ignore_tls_errors() == a.spec_ignore_tls_errors()
    &&& r.spec_vanilla_fallback() == a.spec_vanilla_fallback()
    &&& r.spec_proxy_url() == a.spec_proxy_url()
    &&& r.spec_request_timeout() == a.spec_request_timeout()
    &&& r.spec_max_http_version() == a.spec_max_http_version()
    &&& r.spec_redirect() == a.spec_redirect()
}

/// The dispatcher's settings equal the builder's.
pub open spec fn same_config(r: &Impit, c: &ImpitBuilder) -> bool {
    &&& r.spec_browser() == c.spec_browser()
    &&& r.spec_ignore_tls_errors() == c.spec_ignore_tls_errors()
    &&& r.spec_vanilla_fallback() == c.spec_vanilla_fallback()
    &&& r.spec_proxy_url() == c.spec_proxy_url()
    &&& r.spec_request_timeout() == c.spec_request_timeout()
    &&& r.spec_max_http_version() == c.spec_max_http_version()
    &&& r.spec_redirect() == c.spec_redirect()
}

impl Default for ImpitBuilder {
    /// No impersonation, TLS errors respected, vanilla fallback on, no
    /// proxy, a 30 second timeout, HTTP/2 at most, up to 10 redirects.
    fn default() -> (r: Self)
        ensures
            r.spec_browser() is None,
            !r.spec_ignore_tls_errors(),
            r.spec_vanilla_fallback(),
            r.spec_proxy_url() == Seq::<char>::empty(),
            r.spec_request_timeout() == 30000u64,
            r.spec_max_http_version() == HttpVersion::Http2,
            r.spec_redirect() == RedirectBehavior::FollowRedirect(10),
    {
        ImpitBuilder {
            browser: None,
            ignore_tls_errors: false,
            vanilla_fallback: true,
            proxy_url: String::new(),
            request_timeout: 30000,
            max_http_version: HttpVersion::Http2,
            redirect: RedirectBehavior::FollowRedirect(10),
        }
    }
}

/// Everything an HTTP client for one transport tier is built from.
pub struct ClientPlan {
    /// The TLS side of the fingerprint.
    pub tls: TlsConfig,
    /// The client speaks HTTP/3 from the first byte.
    pub http3_prior_knowledge: bool,
    /// The client keeps a cookie store.
    pub cookie_store: bool,
    /// The default timeout, in milliseconds.
    pub timeout: u64,
    /// The proxy to send everything through, when configured.
    pub proxy_url: Option<String>,
    /// The redirect policy.
    pub redirect: RedirectBehavior,
}

/// The client plan follows the configuration choices: TLS from the
/// profile, ALPN and prior knowledge from the transport tier, and the
/// timeout, proxy and redirect policy taken verbatim.
pub open spec fn plan_matches(
    r: ClientPlan,
    browser: Option<Browser>,
    ignore_tls_errors: bool,
    http3: bool,
    timeout: u64,
    proxy_url: Seq<char>,
    redirect: RedirectBehavior,
) -> bool {
    &&& r.tls.browser == browser
    &&& r.tls.browser_version == emulated_browser_version()
    &&& strings_view(r.tls.alpn_protocols@) == alpn_spec(http3)
    &&& r.tls.kx_groups@ == profile_kx_groups_spec(browser)
    &&& r.tls.ech_grease
    &&& r.tls.ignore_tls_errors == ignore_tls_errors
    &&& r.http3_prior_knowledge == http3
    &&& r.cookie_store
    &&& r.timeout == timeout
    &&& match r.proxy_url {
        Some(u) => proxy_url.len() > 0 && u@ == proxy_url,
        None => proxy_url.len() == 0,
    }
    &&& r.redirect == redirect
}

/// A planned request, ready to send.
pub struct RequestPlan {
    /// The transport tier to send over.
    pub transport: Transport,
    /// The host the request goes to.
    pub host: String,
    /// Whether the request travels over HTTPS.
    pub https: bool,
    /// The composed headers, in emission order.
    pub headers: Vec<(String, String)>,
    /// The pseudo-header order for this request.
    pub pseudo_header_order: Vec<String>,
    /// The timeout for this request, in milliseconds.
    pub timeout: u64,
}

/// What negotiation decided for a request.
pub enum RequestStep {
    /// Everything is decided: send.
    Send(RequestPlan),
    /// The named host's HTTP/3 capability is unknown: probe its HTTPS DNS
    /// record, record the outcome, and ask again.
    Probe(String),
}

/// The dispatcher: holds the process-lifetime configuration and the
/// per-host HTTP/3 capability cache, and decides each request.
pub struct Impit {
    config: ImpitBuilder,
    h3_engine: H3Engine,
}

impl Impit {
    /// The cache is well-formed.
    pub closed spec fn wf(&self) -> bool {
        self.h3_engine.wf()
    }

    /// The browser to impersonate, if any.
    pub closed spec fn spec_browser(&self) -> Option<Browser> {
        self.config.spec_browser()
    }

    /// Whether TLS errors are ignored.
    pub closed spec fn spec_ignore_tls_errors(&self) -> bool {
        self.config.spec_ignore_tls_errors()
    }

    /// Whether a failed impersonated send is retried through a vanilla
    /// client.
    pub closed spec fn spec_vanilla_fallback(&self) -> bool {
        self.config.spec_vanilla_fallback()
    }

    /// The proxy URL; empty means none.
    pub closed spec fn spec_proxy_url(&self) -> Seq<char> {
        self.config.spec_proxy_url()
    }

    /// The default request timeout, in milliseconds.
    pub closed spec fn spec_request_timeout(&self) -> u64 {
        self.config.spec_request_timeout()
    }

    /// The highest HTTP version to negotiate.
    pub closed spec fn spec_max_http_version(&self) -> HttpVersion {
        self.config.spec_max_http_version()
    }

    /// The redirect policy.
    pub closed spec fn spec_redirect(&self) -> RedirectBehavior {
        self.config.spec_redirect()
    }

    /// The cached HTTP/3 capability of a host.
    pub closed spec fn spec_h3_status(&self, host: Seq<char>) -> Option<bool> {
        self.h3_engine.status_of(host)
    }

    /// Starts collecting a dispatcher configuration.
    pub fn builder() -> (r: ImpitBuilder)
        ensures
            r.spec_browser() is None,
            !r.spec_ignore_tls_errors(),
            r.spec_vanilla_fallback(),
            r.spec_proxy_url() == Seq::<char>::empty(),
            r.spec_request_timeout() == 30000u64,
            r.spec_max_http_version() == HttpVersion::Http2,
            r.spec_redirect() == RedirectBehavior::FollowRedirect(10),
    {
        ImpitBuilder::default()
    }

    /// Builds a dispatcher: the configuration is stored and every host's
    /// HTTP/3 capability starts unknown.
    pub fn new(config: ImpitBuilder) -> (r: Self)
        ensures
            same_config(&r, &config),
            r.wf(),
            forall|h: Seq<char>| r.spec_h3_status(h) is None,
    {
        Impit { config, h3_engine: H3Engine::init() }
    }

    /// Validates a URL string: a parse failure, a missing hostname and a
    /// scheme outside http and https each draw their own error.
    pub fn parse_url(&self, url: String) -> (r: Result<UrlParts, ErrorType>)
        ensures
            ({
                let parsed = url_parse_of(url@);
                match spec_url_error(parsed) {
                    Some(e) => r == Err::<UrlParts, ErrorType>(e),
                    None => r matches Ok(p) && parsed matches Some(q) && url_parts_match(p, q),
                }
            }),
    {
        match url_parse(url.as_str()) {
            None => Err(ErrorType::UrlParsingError),
            Some(p) => {
                let UrlParts { scheme, host } = p;
                match host {
                    None => Err(ErrorType::UrlMissingHostnameError),
                    Some(h) => {
                        let is_http = scheme == String::from_str("http");
                        let is_https = scheme == String::from_str("https");
                        if is_http || is_https {
                            Ok(UrlParts { scheme, host: Some(h) })
                        } else {
                            Err(ErrorType::UrlProtocolError)
                        }
                    },
                }
            },
        }
    }

    /// Turns a configuration into the plan of one client: the TLS plan
    /// from the profile and transport tier, HTTP/3 prior knowledge when
    /// QUIC is the target, and the timeout, proxy and redirect policy
    /// taken verbatim.
    pub fn new_client_plan(config: &ImpitBuilder) -> (r: ClientPlan)
        ensures
            plan_matches(
                r,
                config.spec_browser(),
                config.spec_ignore_tls_errors(),
                config.spec_max_http_version() == HttpVersion::Http3,
                config.spec_request_timeout(),
                config.spec_proxy_url(),
                config.spec_redirect(),
            ),
    {
        let http3 = match config.max_http_version {
            HttpVersion::Http3 => true,
            HttpVersion::Http2 => false,
        };
        let tls_builder = TlsConfig::builder().with_browser(config.browser);
        let tls_builder = if http3 {
            tls_builder.with_http3()
        } else {
            tls_builder
        };
        let tls = tls_builder.with_ignore_tls_errors(config.ignore_tls_errors).build();
        let proxy_url = if !config.proxy_url.as_str().is_empty() {
            Some(config.proxy_url.clone())
        } else {
            None
        };
        ClientPlan {
            tls,
            http3_prior_knowledge: http3,
            cookie_store: true,
            timeout: config.request_timeout,
            proxy_url,
            redirect: config.redirect,
        }
    }

    /// The plan of the TCP-tier client.  When HTTP/3 is enabled the QUIC
    /// client exists beside it and the TCP client is planned with HTTP/2
    /// at most, exactly as the dispatcher builds its clients once at
    /// construction.
    pub fn base_client_plan(&self) -> (r: ClientPlan)
        ensures
            plan_matches(
                r,
                self.spec_browser(),
                self.spec_ignore_tls_errors(),
                false,
                self.spec_request_timeout(),
                self.spec_proxy_url(),
                self.spec_redirect(),
            ),
    {
        let config = ImpitBuilder {
            browser: self.config.browser,
            ignore_tls_errors: self.config.ignore_tls_errors,
            vanilla_fallback: self.config.vanilla_fallback,
            proxy_url: self.config.proxy_url.clone(),
            request_timeout: self.config.request_timeout,
            max_http_version: HttpVersion::Http2,
            redirect: self.config.redirect,
        };
        Impit::new_client_plan(&config)
    }

    /// The plan of the QUIC-tier client, present exactly when HTTP/3 is
    /// enabled.
    pub fn h3_client_plan(&self) -> (r: Option<ClientPlan>)
        ensures
            match r {
                Some(plan) => self.spec_max_http_version() == HttpVersion::Http3 && plan_matches(
                    plan,
                    self.spec_browser(),
                    self.spec_ignore_tls_errors(),
                    true,
                    self.spec_request_timeout(),
                    self.spec_proxy_url(),
                    self.spec_redirect(),
                ),
                None => self.spec_max_http_version() != HttpVersion::Http3,
            },
    {
        match self.config.max_http_version {
            HttpVersion::Http3 => Some(Impit::new_client_plan(&self.config)),
            HttpVersion::Http2 => None,
        }
    }

    /// Plans one request: validates the URL, decides the transport from
    /// the per-request options, the configured ceiling and the host's
    /// cached capability, and composes the headers.  When the host's
    /// capability is unknown it asks for a DNS probe instead; no probe is
    /// ever asked for a decided host.
    pub fn begin_request(&self, url: &String, options: &RequestOptions) -> (r: Result<
        RequestStep,
        ErrorType,
    >)
        requires
            self.wf(),
        ensures
            begin_request_post(
                r,
                self,
                url@,
                options.http3_prior_knowledge,
                pairs_view(options.headers@),
                options.timeout,
            ),
    {
        let parts = match url_parse(url.as_str()) {
            None => {
                return Err(ErrorType::UrlParsingError);
            },
            Some(p) => p,
        };
        let UrlParts { scheme, host } = parts;
        let host = match host {
            None => {
                return Err(ErrorType::UrlMissingHostnameError);
            },
            Some(h) => h,
        };
        let is_http = scheme == String::from_str("http");
        let is_https = scheme == String::from_str("https");
        if !is_http && !is_https {
            return Err(ErrorType::UrlProtocolError);
        }
        let h3_enabled = match self.config.max_http_version {
            HttpVersion::Http3 => true,
            HttpVersion::Http2 => false,
        };
        if options.http3_prior_knowledge && !h3_enabled {
            return Err(ErrorType::Http3Disabled);
        }
        let transport: Transport;
        if options.http3_prior_knowledge {
            transport = Transport::Quic;
        } else if !h3_enabled {
            transport = Transport::Tcp;
        } else {
            match self.h3_engine.cached_support(&host) {
                Some(true) => {
                    transport = Transport::Quic;
                },
                Some(false) => {
                    transport = Transport::Tcp;
                },
                None => {
                    return Ok(RequestStep::Probe(host));
                },
            }
        }
        let composed = HttpHeaders::get_builder().with_browser(&self.config.browser).with_host(
            &host,
        ).with_https(is_https).with_custom_headers(&options.headers).build().compose();
        let timeout = match options.timeout {
            Some(t) => t,
            None => self.config.request_timeout,
        };
        Ok(
            RequestStep::Send(
                RequestPlan {
                    transport,
                    host,
                    https: is_https,
                    headers: composed.headers,
                    pseudo_header_order: composed.pseudo_header_order,
                    timeout,
                },
            ),
        )
    }

    /// Records what a DNS probe showed for a host.  The first write wins:
    /// a host that is already decided keeps its state.
    pub fn record_probe_result(&mut self, host: &String, supports_h3: bool)
        requires
            old(self).wf(),
        ensures
            final(self).wf(),
            same_settings(old(self), final(self)),
            final(self).spec_h3_status(host@) == probe_recorded(
                old(self).spec_h3_status(host@),
                supports_h3,
            ),
            forall|h: Seq<char>|
                h != host@ ==> final(self).spec_h3_status(h) == old(self).spec_h3_status(h),
    {
        self.h3_engine.set_h3_support(host, supports_h3);
    }

    /// Records what a successful exchange showed.  Over TCP the response's
    /// Alt-Svc header (or its absence) feeds the cache; a successful QUIC
    /// exchange is itself proof of support, so nothing is written.
    pub fn on_response(&mut self, host: &String, transport: Transport, alt_svc: Option<&String>)
        requires
            old(self).wf(),
        ensures
            final(self).wf(),
            same_settings(old(self), final(self)),
            transport == Transport::Quic ==> forall|h: Seq<char>|
                final(self).spec_h3_status(h) == old(self).spec_h3_status(h),
            transport == Transport::Tcp ==> final(self).spec_h3_status(host@) == (match alt_svc {
                Some(v) => alt_svc_observed(old(self).spec_h3_status(host@), v@),
                None => probe_recorded(old(self).spec_h3_status(host@), false),
            }),
            transport == Transport::Tcp ==> forall|h: Seq<char>|
                h != host@ ==> final(self).spec_h3_status(h) == old(self).spec_h3_status(h),
    {
        match transport {
            Transport::Quic => {},
            Transport::Tcp => {
                match alt_svc {
                    Some(v) => self.h3_engine.observe_alt_svc(host, v.as_str()),
                    None => self.h3_engine.set_h3_support(host, false),
                }
            },
        }
    }

    /// Decides what follows a failed send.  A first failure is retried
    /// through a vanilla client only when the fallback is enabled and a
    /// profile is configured, else it surfaces as an impersonation error;
    /// a failure of the retry itself surfaces as a transport error.  The
    /// vanilla plan is built afresh on every failure by design.
    pub fn on_send_failure(&self, already_retried: bool) -> (r: Result<ClientPlan, ErrorType>)
        ensures
            already_retried ==> r == Err::<ClientPlan, ErrorType>(ErrorType::TransportError),
            !already_retried && !(self.spec_vanilla_fallback() && self.spec_browser() is Some)
                ==> r == Err::<ClientPlan, ErrorType>(ErrorType::ImpersonationError),
            !already_retried && self.spec_vanilla_fallback() && self.spec_browser() is Some ==> (
            r matches Ok(plan) && plan_matches(
                plan,
                None,
                false,
                false,
                self.spec_request_timeout(),
                self.spec_proxy_url(),
                self.spec_redirect(),
            )),
    {
        if already_retried {
            return Err(ErrorType::TransportError);
        }
        let has_profile = match self.config.browser {
            Some(_) => true,
            None => false,
        };
        if !self.config.vanilla_fallback || !has_profile {
            return Err(ErrorType::ImpersonationError);
        }
        Ok(self.vanilla_client_plan())
    }

    /// The plan of the unimpersonated client the fallback sends through:
    /// no browser profile, no TLS leniency, TCP transport; the proxy,
    /// timeout and redirect policy are kept so the retry can reach the
    /// same endpoint.
    pub fn vanilla_client_plan(&self) -> (r: ClientPlan)
        ensures
            plan_matches(
                r,
                None,
                false,
                false,
                self.spec_request_timeout(),
                self.spec_proxy_url(),
                self.spec_redirect(),
            ),
    {
        let tls = TlsConfig::builder().build();
        let proxy_url = if !self.config.proxy_url.as_str().is_empty() {
            Some(self.config.proxy_url.clone())
        } else {
            None
        };
        ClientPlan {
            tls,
            http3_prior_knowledge: false,
            cookie_store: true,
            timeout: self.config.request_timeout,
            proxy_url,
            redirect: self.config.redirect,
        }
    }
}

impl Default for Impit {
    /// A dispatcher over the default configuration.
    fn default() -> (r: Self)
        ensures
            r.spec_browser() is None,
            !r.spec_ignore_tls_errors(),
            r.spec_vanilla_fallback(),
            r.spec_proxy_url() == Seq::<char>::empty(),
            r.spec_request_timeout() == 30000u64,
            r.spec_max_http_version() == HttpVersion::Http2,
            r.spec_redirect() == RedirectBehavior::FollowRedirect(10),
            r.wf(),
            forall|h: Seq<char>| r.spec_h3_status(h) is None,
    {
        Impit::new(ImpitBuilder::default())
    }
}

/// Two dispatcher states carry the same configuration.
pub open spec fn same_settings(a: &Impit, b: &Impit) -> bool {
    &&& b.spec_browser() == a.spec_browser()
    &&& b.spec_ignore_tls_errors() == a.spec_ignore_tls_errors()
    &&& b.spec_vanilla_fallback() == a.spec_vanilla_fallback()
    &&& b.spec_proxy_url() == a.spec_proxy_url()
    &&& b.spec_request_timeout() == a.spec_request_timeout()
    &&& b.spec_max_http_version() == a.spec_max_http_version()
    &&& b.spec_redirect() == a.spec_redirect()
}

/// The timeout of one request: the per-request override when given, else
/// the configured default.
pub open spec fn spec_chosen_timeout(timeout_override: Option<u64>, default_timeout: u64) -> u64 {
    match timeout_override {
        Some(t) => t,
        None => default_timeout,
    }
}

/// The plan carries this host, scheme and timeout, and its headers and
/// pseudo-header order are composed from the dispatcher's profile and the
/// request's overrides.
pub open spec fn plan_is_for(
    plan: RequestPlan,
    dispatcher: &Impit,
    host: Seq<char>,
    https: bool,
    custom: Seq<(Seq<char>, Seq<char>)>,
    timeout_override: Option<u64>,
) -> bool {
    &&& plan.host@ == host
    &&& plan.https == https
    &&& pairs_view(plan.headers@) == composed_headers(
        profile_headers_spec(dispatcher.spec_browser()),
        custom,
    )
    &&& strings_view(plan.pseudo_header_order@) == profile_pseudo_order_spec(
        dispatcher.spec_browser(),
    )
    &&& plan.timeout == spec_chosen_timeout(timeout_override, dispatcher.spec_request_timeout())
}

/// What planning one request returns, for every input: each URL error by
/// precedence, the forced-HTTP/3 misconfiguration, the transport from the
/// ceiling and the cache, and a probe exactly when the host is unknown.
pub open spec fn begin_request_post(
    r: Result<RequestStep, ErrorType>,
    dispatcher: &Impit,
    url: Seq<char>,
    prior_knowledge: bool,
    custom: Seq<(Seq<char>, Seq<char>)>,
    timeout_override: Option<u64>,
) -> bool {
    let parsed = url_parse_of(url);
    match spec_url_error(parsed) {
        Some(e) => r == Err::<RequestStep, ErrorType>(e),
        None => match parsed {
            Some(q) => match q.host {
                Some(h) => {
                    let https = q.scheme == "https"@;
                    if prior_knowledge && dispatcher.spec_max_http_version()
                        != HttpVersion::Http3 {
                        r == Err::<RequestStep, ErrorType>(ErrorType::Http3Disabled)
                    } else if prior_knowledge {
                        r matches Ok(RequestStep::Send(plan)) && plan.transport
                            == Transport::Quic && plan_is_for(
                            plan,
                            dispatcher,
                            h,
                            https,
                            custom,
                            timeout_override,
                        )
                    } else if dispatcher.spec_max_http_version() != HttpVersion::Http3 {
                        r matches Ok(RequestStep::Send(plan)) && plan.transport == Transport::Tcp
                            && plan_is_for(plan, dispatcher, h, https, custom, timeout_override)
                    } else {
                        match dispatcher.spec_h3_status(h) {
                            Some(s) => r matches Ok(RequestStep::Send(plan)) && plan.transport
                                == (if s {
                                Transport::Quic
                            } else {
                                Transport::Tcp
                            }) && plan_is_for(plan, dispatcher, h, https, custom, timeout_override),
                            None => r matches Ok(RequestStep::Probe(ph)) && ph@ == h,
                        }
                    }
                },
                None => false,
            },
            None => false,
        },
    }
}

} // verus!
