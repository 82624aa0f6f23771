//! A client whose requests carry the selected authentication method.
use vstd::prelude::*;
use reqwest_websocket::RequestBuilderExt;
use reqwest::Client as Transport;
use reqwest::RequestBuilder as TransportRequest;
use reqwest_websocket::UpgradedRequestBuilder as UpgradeRequest;
use crate::auth::{
    challenge_credentials, upgrade_allowed, send_mode_credentials, AuthView, Authentication,
    SendMode, UpgradeError,
};
use crate::discovery::{probes, run, scheme_order, AuthKind, Scheme, Search, Step, SCHEME_COUNT};
use crate::discovery::lemma_scheme_discovery;
use crate::secret::Secret;

verus! {
#[verifier::external_type_specification]
#[verifier::external_body]
pub struct ExUrl(url::Url);

#[verifier::external_type_specification]
#[verifier::external_body]
pub struct ExParseError(url::ParseError);

#[verifier::external_type_specification]
#[verifier::external_body]
pub struct ExTransport(Transport);

#[verifier::external_type_specification]
#[verifier::external_body]
pub struct ExTransportRequestBuilder(TransportRequest);

#[verifier::external_type_specification]
#[verifier::external_body]
pub struct ExMethod(reqwest::Method);

#[verifier::external_type_specification]
#[verifier::external_body]
pub struct ExUpgradedTransportRequestBuilder(UpgradeRequest);

/// The result of parsing `input` as an absolute URL.
pub uninterp spec fn url_parse(input: Seq<char>) -> Result<url::Url, url::ParseError>;

/// The result of resolving `input` against `base`.
pub uninterp spec fn url_join(base: url::Url, input: Seq<char>) -> Result<url::Url, url::ParseError>;

/// The standard HTTP method with this name.
pub uninterp spec fn method_named(name: Seq<char>) -> reqwest::Method;

/// The transport request that `transport` starts for `method` and `url`.
pub uninterp spec fn started_request(
    transport: Transport,
    method: reqwest::Method,
    url: url::Url,
) -> TransportRequest;

/// The transport request `request` with basic-auth credentials added.
pub uninterp spec fn with_basic_auth(
    request: TransportRequest,
    username: Seq<char>,
    password: Seq<char>,
) -> TransportRequest;

/// The transport request `request` with a bearer token added.
pub uninterp spec fn with_bearer_auth(request: TransportRequest, token: Seq<char>) -> TransportRequest;

/// The transport request `request` marked for a WebSocket handshake.
pub uninterp spec fn upgraded_request(request: TransportRequest) -> UpgradeRequest;

/// Relies on url::Url::parse, whose result depends on the input alone.
pub assume_specification[ url::Url::parse ](input: &str) -> (r: Result<url::Url, url::ParseError>)
    ensures
        r == url_parse(input@),
;

/// Relies on url::Url::join, whose result depends on the base and the input
/// alone.
pub assume_specification[ url::Url::join ](base: &url::Url, input: &str) -> (r: Result<
    url::Url,
    url::ParseError,
>)
    ensures
        r == url_join(*base, input@),
;

/// Relies on the derived Clone impl of url::Url, which copies every field.
pub assume_specification[ <url::Url as std::clone::Clone>::clone ](u: &url::Url) -> (r: url::Url)
    ensures
        r == *u,
;

/// Relies on the derived Clone impl of reqwest::Client, which shares the
/// same inner handle.
pub assume_specification[ <Transport as std::clone::Clone>::clone ](t: &Transport) -> (r:
    Transport)
    ensures
        r == *t,
;

/// Relies on reqwest::Client::request to start a request with this method
/// to this URL on the transport.
#[verifier::external_body]
fn start_request(
    transport: &Transport,
    method: reqwest::Method,
    url: url::Url,
) -> (r: TransportRequest)
    ensures
        r == started_request(*transport, method, url),
{
    transport.request(method, url)
}

/// Relies on reqwest::Method::GET, the GET method.
#[verifier::external_body]
fn method_get() -> (r: reqwest::Method)
    ensures
        r == method_named("GET"@),
{
    reqwest::Method::GET
}

/// Relies on reqwest::Method::POST, the POST method.
#[verifier::external_body]
fn method_post() -> (r: reqwest::Method)
    ensures
        r == method_named("POST"@),
{
    reqwest::Method::POST
}

/// Relies on reqwest::Method::PUT, the PUT method.
#[verifier::external_body]
fn method_put() -> (r: reqwest::Method)
    ensures
        r == method_named("PUT"@),
{
    reqwest::Method::PUT
}

/// Relies on reqwest::RequestBuilder::basic_auth to add basic-auth
/// credentials to the request.
#[verifier::external_body]
fn attach_basic(builder: TransportRequest, username: &str, password: &str) -> (r: TransportRequest)
    ensures
        r == with_basic_auth(builder, username@, password@),
{
    builder.basic_auth(username, Some(password))
}

/// Relies on reqwest::RequestBuilder::bearer_auth to add a bearer token to the
/// request.
#[verifier::external_body]
fn attach_bearer(builder: TransportRequest, token: &str) -> (r: TransportRequest)
    ensures
        r == with_bearer_auth(builder, token@),
{
    builder.bearer_auth(token)
}

/// Relies on reqwest_websocket's RequestBuilderExt::upgrade to mark a request
/// for a WebSocket handshake.
#[verifier::external_body]
fn mark_upgrade(builder: TransportRequest) -> (r: UpgradeRequest)
    ensures
        r == upgraded_request(builder),
{
    builder.upgrade()
}

/// The configuration of a [`Client`].
pub struct ClientView {
    pub auth: AuthView,
    pub base: url::Url,
    pub transport: Transport,
}

/// An HTTP client: a base address, the active authentication method and a
/// transport. Configuration never changes in place; each builder call returns
/// a new client.
pub struct Client {
    auth: Authentication,
    base: url::Url,
    client: Transport,
}

impl View for Client {
    type V = ClientView;

    closed spec fn view(&self) -> ClientView {
        ClientView { auth: self.auth@, base: self.base, transport: self.client }
    }
}

impl Clone for Client {
    /// An independent copy with the same configuration.
    fn clone(&self) -> (r: Client)
        ensures
            r@ == self@,
    {
        Client { auth: self.auth.clone(), base: self.base.clone(), client: self.client.clone() }
    }
}

/// The text of the base address tried for `host` with `scheme`.
pub open spec fn candidate_address(scheme: Scheme, host: Seq<char>) -> Seq<char> {
    scheme.spec_name() + seq![':', '/', '/'] + host
}

/// The client that scheme discovery probes for `host` with `scheme`: no
/// authentication, and the parse of the candidate address as base address.
pub open spec fn scheme_candidate(scheme: Scheme, host: Seq<char>, transport: Transport) -> Result<
    ClientView,
    url::ParseError,
> {
    match url_parse(candidate_address(scheme, host)) {
        Ok(base) => Ok(ClientView { auth: AuthView::Anonymous, base, transport }),
        Err(e) => Err(e),
    }
}

/// The transport request after the build-time part of method `a`: basic
/// and bearer add their credentials; digest and anonymous add nothing.
pub open spec fn authorized(request: TransportRequest, a: AuthView) -> TransportRequest {
    match a {
        AuthView::Basic { username, password } => with_basic_auth(request, username, password),
        AuthView::Bearer { token } => with_bearer_auth(request, token),
        AuthView::Digest { .. } => request,
        AuthView::Anonymous => request,
    }
}

/// The request that `client` builds for `method` and `path`: it fails exactly
/// when `path` cannot be resolved against the base address, with that error.
pub open spec fn request_outcome(client: ClientView, method: reqwest::Method, path: Seq<char>) -> Result<
    RequestView,
    url::ParseError,
> {
    match url_join(client.base, path) {
        Ok(url) => Ok(
            RequestView {
                auth: client.auth,
                transport: authorized(started_request(client.transport, method, url), client.auth),
            },
        ),
        Err(e) => Err(e),
    }
}

/// The view of a built request, or its error.
pub open spec fn request_result_view(r: Result<RequestBuilder, url::ParseError>) -> Result<
    RequestView,
    url::ParseError,
> {
    match r {
        Ok(b) => Ok(b@),
        Err(e) => Err(e),
    }
}

/// The method that discovery configures for `kind` with these credentials.
pub open spec fn auth_for_kind(kind: AuthKind, username: Seq<char>, password: Seq<char>) -> AuthView {
    match kind {
        AuthKind::Digest => AuthView::Digest { username, password },
        AuthKind::Basic => AuthView::Basic { username, password },
        AuthKind::Anonymous => AuthView::Anonymous,
    }
}

impl Client {
    /// A client for a known base address, without authentication, that
    /// sends its requests through `transport`.
    pub fn new(base: url::Url, transport: Transport) -> (r: Client)
        ensures
            r@ == (ClientView { auth: AuthView::Anonymous, base, transport }),
    {
        Client { auth: Authentication::Anonymous, base, client: transport }
    }

    /// The base address tried for `host` with `scheme`.
    pub fn candidate_address(scheme: Scheme, host: &str) -> (r: String)
        ensures
            r@ == candidate_address(scheme, host@),
    {
        let mut text = String::from_str(scheme.name());
        text.append("://");
        text.append(host);
        proof {
            reveal_strlit("://");
        }
        text
    }

    /// A client without authentication for `host` reached with `scheme`, to be
    /// probed during scheme discovery. Fails where the address is not a URL.
    ///
    /// A client found this way may use plaintext transport; it is meant for
    /// development, not for untrusted networks.
    pub fn for_scheme(scheme: Scheme, host: &str, transport: Transport) -> (r: Result<
        Client,
        url::ParseError,
    >)
        ensures
            match r {
                Ok(c) => scheme_candidate(scheme, host@, transport) == Ok::<
                    ClientView,
                    url::ParseError,
                >(c@),
                Err(e) => scheme_candidate(scheme, host@, transport) == Err::<
                    ClientView,
                    url::ParseError,
                >(e),
            },
    {
        let address = Client::candidate_address(scheme, host);
        match url::Url::parse(address.as_str()) {
            Ok(base) => Ok(Client::new(base, transport)),
            Err(e) => Err(e),
        }
    }

    /// The base address that request paths are resolved against.
    pub fn base(&self) -> (r: &url::Url)
        ensures
            *r == self@.base,
    {
        &self.base
    }

    /// This client with no authentication.
    pub fn anonymous_auth(self) -> (r: Client)
        ensures
            r@ == (ClientView { auth: AuthView::Anonymous, ..self@ }),
    {
        Client { auth: Authentication::Anonymous, ..self }
    }

    /// This client with basic authentication.
    pub fn basic_auth(self, username: &str, password: &str) -> (r: Client)
        ensures
            r@ == (ClientView {
                auth: AuthView::Basic { username: username@, password: password@ },
                ..self@
            }),
    {
        let username = String::from_str(username);
        let password = Secret::new(password);
        Client { auth: Authentication::Basic { username, password }, ..self }
    }

    /// This client with bearer-token authentication.
    pub fn bearer_auth(self, token: &str) -> (r: Client)
        ensures
            r@ == (ClientView { auth: AuthView::Bearer { token: token@ }, ..self@ }),
    {
        let token = Secret::new(token);
        Client { auth: Authentication::Bearer { token }, ..self }
    }

    /// This client with digest authentication.
    ///
    /// Digest authentication is not available for requests upgraded to a
    /// WebSocket; sending such a request fails.
    pub fn digest_auth(self, username: &str, password: &str) -> (r: Client)
        ensures
            r@ == (ClientView {
                auth: AuthView::Digest { username: username@, password: password@ },
                ..self@
            }),
    {
        let username = String::from_str(username);
        let password = Secret::new(password);
        Client { auth: Authentication::Digest { username, password }, ..self }
    }

    /// This client configured with the method of `kind`, for authentication
    /// discovery.
    pub fn with_auth_kind(self, kind: AuthKind, username: &str, password: &str) -> (r: Client)
        ensures
            r@ == (ClientView { auth: auth_for_kind(kind, username@, password@), ..self@ }),
    {
        match kind {
            AuthKind::Digest => self.digest_auth(username, password),
            AuthKind::Basic => self.basic_auth(username, password),
            AuthKind::Anonymous => self.anonymous_auth(),
        }
    }

    /// A request with `method` to `path`, resolved against the base address.
    ///
    /// The request carries a copy of the active method; basic and bearer
    /// credentials are added to the transport request now, digest ones when it
    /// is sent. Fails, with the resolution error, exactly where `path` cannot
    /// be resolved against the base address.
    pub fn request(&self, method: reqwest::Method, path: &str) -> (r: Result<
        RequestBuilder,
        url::ParseError,
    >)
        ensures
            request_result_view(r) == request_outcome(self@, method, path@),
    {
        let url = match self.base.join(path) {
            Ok(url) => url,
            Err(e) => {
                return Err(e);
            },
        };
        let builder = start_request(&self.client, method, url);
        let auth = self.auth.clone();
        let builder = match &auth {
            Authentication::Basic { username, password } => attach_basic(
                builder,
                username.as_str(),
                password.revealed(),
            ),
            Authentication::Bearer { token } => attach_bearer(builder, token.revealed()),
            Authentication::Digest { .. } => builder,
            Authentication::Anonymous => builder,
        };
        Ok(RequestBuilder { auth, builder })
    }

    /// A GET request to `path`; see [`Client::request`].
    pub fn get(&self, path: &str) -> (r: Result<RequestBuilder, url::ParseError>)
        ensures
            request_result_view(r) == request_outcome(self@, method_named("GET"@), path@),
    {
        self.request(method_get(), path)
    }

    /// A POST request to `path`; see [`Client::request`].
    pub fn post(&self, path: &str) -> (r: Result<RequestBuilder, url::ParseError>)
        ensures
            request_result_view(r) == request_outcome(self@, method_named("POST"@), path@),
    {
        self.request(method_post(), path)
    }

    /// A PUT request to `path`; see [`Client::request`].
    pub fn put(&self, path: &str) -> (r: Result<RequestBuilder, url::ParseError>)
        ensures
            request_result_view(r) == request_outcome(self@, method_named("PUT"@), path@),
    {
        self.request(method_put(), path)
    }
}

/// What a [`RequestBuilder`] holds: the method and the transport request.
pub struct RequestView {
    pub auth: AuthView,
    pub transport: TransportRequest,
}

/// A request that has had the client's authentication method applied.
pub struct RequestBuilder {
    auth: Authentication,
    builder: TransportRequest,
}

impl View for RequestBuilder {
    type V = RequestView;

    closed spec fn view(&self) -> RequestView {
        RequestView { auth: self.auth@, transport: self.builder }
    }
}

impl RequestBuilder {
    /// This request with the transport request replaced by what `f` makes of
    /// it; the authentication method stays.
    pub fn replace_with(
        self,
        f: impl FnOnce(TransportRequest) -> TransportRequest,
    ) -> (r: RequestBuilder)
        requires
            forall|b: TransportRequest| f.requires((b,)),
        ensures
            r@.auth == self@.auth,
            f.ensures((self@.transport,), r@.transport),
    {
        let RequestBuilder { auth, builder } = self;
        RequestBuilder { auth, builder: f(builder) }
    }

    /// This request, marked for an upgrade to the WebSocket protocol.
    ///
    /// Sending it fails where the method is digest authentication.
    pub fn upgrade(self) -> (r: UpgradedRequestBuilder)
        ensures
            r@ == (UpgradedView { auth: self@.auth, transport: upgraded_request(self@.transport) }),
    {
        let RequestBuilder { auth, builder } = self;
        UpgradedRequestBuilder { auth, builder: mark_upgrade(builder) }
    }

    /// How this request must be sent, and its transport request.
    pub fn into_send(self) -> (r: (SendMode, TransportRequest))
        ensures
            send_mode_credentials(r.0) == challenge_credentials(self@.auth),
            r.1 == self@.transport,
    {
        let RequestBuilder { auth, builder } = self;
        (auth.send_mode(), builder)
    }
}

/// What an [`UpgradedRequestBuilder`] holds.
pub struct UpgradedView {
    pub auth: AuthView,
    pub transport: UpgradeRequest,
}

/// A request marked for an upgrade to the WebSocket protocol.
pub struct UpgradedRequestBuilder {
    auth: Authentication,
    builder: UpgradeRequest,
}

impl View for UpgradedRequestBuilder {
    type V = UpgradedView;

    closed spec fn view(&self) -> UpgradedView {
        UpgradedView { auth: self.auth@, transport: self.builder }
    }
}

impl UpgradedRequestBuilder {
    /// The transport request to send, or the error that sending must report:
    /// the digest exchange is not available on an upgraded connection.
    pub fn into_send(self) -> (r: Result<UpgradeRequest, UpgradeError>)
        ensures
            r is Ok <==> upgrade_allowed(self@.auth),
            r matches Ok(b) ==> b == self@.transport,
    {
        let UpgradedRequestBuilder { auth, builder } = self;
        match auth.check_upgrade() {
            Ok(()) => Ok(builder),
            Err(e) => Err(e),
        }
    }
}

/// Every request that a client configured with a bearer token builds is
/// built whenever its path resolves; its transport request is the started
/// request with that token added, and it is sent with a single exchange,
/// never a challenge-response one.
pub proof fn lemma_bearer_client_requests(client: ClientView, method: reqwest::Method, path: Seq<char>)
    requires
        client.auth is Bearer,
    ensures
        url_join(client.base, path) is Ok <==> request_outcome(client, method, path) is Ok,
        request_outcome(client, method, path) matches Ok(b) ==> {
            &&& b.auth == client.auth
            &&& b.transport == with_bearer_auth(
                started_request(client.transport, method, url_join(client.base, path)->Ok_0),
                client.auth->Bearer_token,
            )
            &&& challenge_credentials(b.auth) is None
        },
{
}

/// Every request that a client configured with digest builds is built
/// whenever its path resolves; nothing is added to the started transport
/// request, and sending it hands the client's username and password to the
/// challenge-response exchange.
pub proof fn lemma_digest_client_requests(client: ClientView, method: reqwest::Method, path: Seq<char>)
    requires
        client.auth is Digest,
    ensures
        url_join(client.base, path) is Ok <==> request_outcome(client, method, path) is Ok,
        request_outcome(client, method, path) matches Ok(b) ==> {
            &&& b.auth == client.auth
            &&& b.transport == started_request(
                client.transport,
                method,
                url_join(client.base, path)->Ok_0,
            )
            &&& challenge_credentials(b.auth) == Some(
                (client.auth->Digest_username, client.auth->Digest_password),
            )
        },
{
}

/// A digest request, once upgraded, cannot be sent: the upgraded request keeps
/// the digest method, with which sending always fails.
pub proof fn lemma_upgraded_digest_fails(request: RequestView, upgraded: UpgradedView)
    requires
        request.auth is Digest,
        upgraded.auth == request.auth,
    ensures
        !upgrade_allowed(upgraded.auth),
{
}

/// Scheme discovery for `host` probes, in this order, a client without
/// authentication whose base address is the parse of `https://host`, then one
/// whose base address is the parse of `http://host`. It accepts the first
/// whose probe succeeds; where only the plaintext probe succeeds, the client
/// it yields has the parse of `http://host` as base address.
pub proof fn lemma_scheme_candidates(results: Seq<bool>, host: Seq<char>, transport: Transport)
    requires
        results.len() == SCHEME_COUNT,
    ensures
        candidate_address(scheme_order()[0], host) == seq!['h', 't', 't', 'p', 's', ':', '/', '/']
            + host,
        candidate_address(scheme_order()[1], host) == seq!['h', 't', 't', 'p', ':', '/', '/'] + host,
        forall|s: Scheme| #[trigger]
            scheme_candidate(s, host, transport) matches Ok(c) ==> c == (ClientView {
                auth: AuthView::Anonymous,
                base: url_parse(candidate_address(s, host))->Ok_0,
                transport,
            }),
        results[0] ==> run(Search::start(SCHEME_COUNT), results).step() == Step::Accept(0)
            && probes(Search::start(SCHEME_COUNT), results) == seq![0usize],
        !results[0] && results[1] ==> run(Search::start(SCHEME_COUNT), results).step()
            == Step::Accept(1) && probes(Search::start(SCHEME_COUNT), results) == seq![0usize, 1],
        !results[0] && !results[1] ==> run(Search::start(SCHEME_COUNT), results).step()
            == Step::GiveUp && probes(Search::start(SCHEME_COUNT), results) == seq![0usize, 1],
{
    lemma_scheme_discovery(results);
    assert(candidate_address(Scheme::Https, host) =~= seq!['h', 't', 't', 'p', 's', ':', '/', '/']
        + host);
    assert(candidate_address(Scheme::Http, host) =~= seq!['h', 't', 't', 'p', ':', '/', '/'] + host);
}

} // verus!
