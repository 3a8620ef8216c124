use vstd::prelude::*;

use crate::error::{config_error, BridgeError, ErrorKind};
use crate::native::{parse_scheme, scheme_of};

verus! {

/// The URL scheme of an HTTP endpoint.
#[derive(PartialEq, Eq, Structural, Clone, Copy, Debug)]
pub enum SchemeKind {
    Http,
    Https,
}

/// A name and a value: an HTTP header, or a label of a labeled tunnel.
#[derive(Clone, Debug, PartialEq, Eq)]
pub struct KeyValue {
    pub key: String,
    pub value: String,
}

/// Settings shared by the TCP, TLS and HTTP endpoint builders.
#[derive(Clone, Debug, PartialEq, Eq)]
pub struct EndpointConfig {
    pub metadata: Option<String>,
    pub allow_cidr: Vec<String>,
    pub deny_cidr: Vec<String>,
    /// PROXY protocol version as the host numbers it (1, 2, anything else for none).
    pub proxy_proto: i64,
    pub forwards_to: Option<String>,
}

/// The host's TCP endpoint builder.
#[derive(Clone, Debug, PartialEq, Eq)]
pub struct TcpConfig {
    pub endpoint: EndpointConfig,
    pub remote_address: Option<String>,
}

/// The host's TLS endpoint builder.
#[derive(Clone, Debug, PartialEq, Eq)]
pub struct TlsConfig {
    pub endpoint: EndpointConfig,
    pub domain: Option<String>,
    pub mutual_tlsca: Option<Vec<u8>>,
    pub termination_cert_pem: Option<Vec<u8>>,
    pub termination_key_pem: Option<Vec<u8>>,
}

/// Client id and secret of an OAuth application.
#[derive(Clone, Debug, PartialEq, Eq)]
pub struct ClientCredentials {
    pub id: String,
    pub secret: String,
}

/// OAuth settings of an HTTP endpoint.
#[derive(Clone, Debug, PartialEq, Eq)]
pub struct OauthConfig {
    pub provider: String,
    pub client: Option<ClientCredentials>,
    pub allow_emails: Vec<String>,
    pub allow_domains: Vec<String>,
    pub scopes: Vec<String>,
}

/// OpenID Connect settings of an HTTP endpoint.
#[derive(Clone, Debug, PartialEq, Eq)]
pub struct OidcConfig {
    pub issuer_url: String,
    pub client_id: String,
    pub client_secret: String,
    pub allow_emails: Vec<String>,
    pub allow_domains: Vec<String>,
    pub scopes: Vec<String>,
}

/// The host's HTTP endpoint builder (all but the circuit-breaker ratio, a
/// floating-point value applied by the caller).
#[derive(Clone, Debug, PartialEq, Eq)]
pub struct HttpConfig {
    pub endpoint: EndpointConfig,
    pub scheme_name: Option<String>,
    pub domain: Option<String>,
    pub mutual_tlsca: Option<Vec<u8>>,
    pub compression: bool,
    pub websocket_tcp_conversion: bool,
    pub request_headers: Vec<KeyValue>,
    pub response_headers: Vec<KeyValue>,
    pub remove_request_headers: Vec<String>,
    pub remove_response_headers: Vec<String>,
    /// Username and password.
    pub basic_auth: Option<KeyValue>,
    pub oauth: Option<OauthConfig>,
    pub oidc: Option<OidcConfig>,
    /// Provider and secret.
    pub webhook_verification: Option<KeyValue>,
}

/// The host's labeled (edge) tunnel builder.
#[derive(Clone, Debug, PartialEq, Eq)]
pub struct EdgeConfig {
    pub metadata: Option<String>,
    pub labels: Vec<KeyValue>,
}

/// A client's self-description, sent with the session's user agent.
#[derive(Clone, Debug, PartialEq, Eq)]
pub struct ClientInfo {
    pub client_type: String,
    pub version: String,
    pub comments: Option<String>,
}

/// The host's session builder (all but its callback objects, which the caller
/// attaches).
#[derive(Clone, Debug, PartialEq, Eq)]
pub struct SessionConfig {
    pub authtoken: String,
    pub heartbeat_interval_ms: Option<u64>,
    pub heartbeat_tolerance_ms: Option<u64>,
    pub metadata: Option<String>,
    pub server_addr: Option<String>,
    pub ca_cert: Option<Vec<u8>>,
    pub client_infos: Vec<ClientInfo>,
}

/// One call on a native tunnel builder.
#[derive(Clone, Debug, PartialEq, Eq)]
pub enum TunnelOp {
    Metadata(String),
    AllowCidr(String),
    DenyCidr(String),
    ProxyProto(i64),
    ForwardsTo(String),
    RemoteAddr(String),
    Domain(String),
    MutualTlsCa(Vec<u8>),
    Termination(Vec<u8>, Vec<u8>),
    Scheme(SchemeKind),
    Compression,
    WebsocketTcpConversion,
    RequestHeader(KeyValue),
    ResponseHeader(KeyValue),
    RemoveRequestHeader(String),
    RemoveResponseHeader(String),
    BasicAuth(KeyValue),
    Oauth(OauthConfig),
    Oidc(OidcConfig),
    WebhookVerification(KeyValue),
    Label(KeyValue),
}

/// Which call a list of plain strings turns into.
#[derive(PartialEq, Eq, Structural, Clone, Copy, Debug)]
pub enum NameList {
    AllowCidr,
    DenyCidr,
    RemoveRequestHeader,
    RemoveResponseHeader,
}

/// Which call a list of name/value pairs turns into.
#[derive(PartialEq, Eq, Structural, Clone, Copy, Debug)]
pub enum PairList {
    RequestHeader,
    ResponseHeader,
    Label,
}

pub open spec fn name_op(list: NameList, s: String) -> TunnelOp {
    match list {
        NameList::AllowCidr => TunnelOp::AllowCidr(s),
        NameList::DenyCidr => TunnelOp::DenyCidr(s),
        NameList::RemoveRequestHeader => TunnelOp::RemoveRequestHeader(s),
        NameList::RemoveResponseHeader => TunnelOp::RemoveResponseHeader(s),
    }
}

pub open spec fn pair_op(list: PairList, kv: KeyValue) -> TunnelOp {
    match list {
        PairList::RequestHeader => TunnelOp::RequestHeader(kv),
        PairList::ResponseHeader => TunnelOp::ResponseHeader(kv),
        PairList::Label => TunnelOp::Label(kv),
    }
}

/// The calls for a list of strings, one per entry, in the host's order.
pub open spec fn name_ops(list: NameList, items: Seq<String>) -> Seq<TunnelOp> {
    items.map_values(|s: String| name_op(list, s))
}

/// The calls for a list of pairs, one per entry, in the host's order.
pub open spec fn pair_ops(list: PairList, items: Seq<KeyValue>) -> Seq<TunnelOp> {
    items.map_values(|kv: KeyValue| pair_op(list, kv))
}

/// Nothing for an absent value, one call for a present one.
pub open spec fn optional_op<T>(v: Option<T>, op: spec_fn(T) -> TunnelOp) -> Seq<TunnelOp> {
    match v {
        Some(x) => seq![op(x)],
        None => Seq::empty(),
    }
}

/// The calls for the settings every endpoint shares: metadata, the CIDR
/// allow and deny lists, the PROXY protocol version, the forwarding target.
pub open spec fn endpoint_ops(e: EndpointConfig) -> Seq<TunnelOp> {
    optional_op(e.metadata, |s: String| TunnelOp::Metadata(s))
        + name_ops(NameList::AllowCidr, e.allow_cidr@)
        + name_ops(NameList::DenyCidr, e.deny_cidr@)
        + seq![TunnelOp::ProxyProto(e.proxy_proto)]
        + optional_op(e.forwards_to, |s: String| TunnelOp::ForwardsTo(s))
}

pub open spec fn tcp_ops(c: TcpConfig) -> Seq<TunnelOp> {
    endpoint_ops(c.endpoint) + optional_op(c.remote_address, |s: String| TunnelOp::RemoteAddr(s))
}

/// TLS termination needs both the certificate and the key, or neither.
pub open spec fn termination_consistent(c: TlsConfig) -> bool {
    c.termination_cert_pem is Some == c.termination_key_pem is Some
}

pub open spec fn termination_ops(cert: Option<Vec<u8>>, key: Option<Vec<u8>>) -> Seq<TunnelOp> {
    match (cert, key) {
        (Some(c), Some(k)) => seq![TunnelOp::Termination(c, k)],
        _ => Seq::empty(),
    }
}

pub open spec fn tls_ops(c: TlsConfig) -> Seq<TunnelOp> {
    endpoint_ops(c.endpoint)
        + optional_op(c.domain, |s: String| TunnelOp::Domain(s))
        + optional_op(c.mutual_tlsca, |b: Vec<u8>| TunnelOp::MutualTlsCa(b))
        + termination_ops(c.termination_cert_pem, c.termination_key_pem)
}

pub open spec fn flag_op(on: bool, op: TunnelOp) -> Seq<TunnelOp> {
    if on {
        seq![op]
    } else {
        Seq::empty()
    }
}

/// The calls for an HTTP endpoint's own edge settings: scheme, domain, mutual
/// TLS authority, compression and the websocket conversion.
pub open spec fn http_edge_ops(c: HttpConfig, scheme: Option<SchemeKind>) -> Seq<TunnelOp> {
    edge_settings_ops(scheme, c.domain, c.mutual_tlsca, c.compression, c.websocket_tcp_conversion)
}

pub open spec fn edge_settings_ops(
    scheme: Option<SchemeKind>,
    domain: Option<String>,
    mutual_tlsca: Option<Vec<u8>>,
    compression: bool,
    websocket_tcp_conversion: bool,
) -> Seq<TunnelOp> {
    optional_op(scheme, |k: SchemeKind| TunnelOp::Scheme(k))
        + optional_op(domain, |s: String| TunnelOp::Domain(s))
        + optional_op(mutual_tlsca, |b: Vec<u8>| TunnelOp::MutualTlsCa(b))
        + flag_op(compression, TunnelOp::Compression)
        + flag_op(websocket_tcp_conversion, TunnelOp::WebsocketTcpConversion)
}

/// The calls for an HTTP endpoint's middleware: headers added and removed,
/// then basic auth, OAuth, OIDC and webhook verification.
pub open spec fn http_middleware_ops(c: HttpConfig) -> Seq<TunnelOp> {
    middleware_ops(
        c.request_headers@,
        c.response_headers@,
        c.remove_request_headers@,
        c.remove_response_headers@,
        c.basic_auth,
        c.oauth,
        c.oidc,
        c.webhook_verification,
    )
}

pub open spec fn middleware_ops(
    request_headers: Seq<KeyValue>,
    response_headers: Seq<KeyValue>,
    remove_request_headers: Seq<String>,
    remove_response_headers: Seq<String>,
    basic_auth: Option<KeyValue>,
    oauth: Option<OauthConfig>,
    oidc: Option<OidcConfig>,
    webhook_verification: Option<KeyValue>,
) -> Seq<TunnelOp> {
    pair_ops(PairList::RequestHeader, request_headers)
        + pair_ops(PairList::ResponseHeader, response_headers)
        + name_ops(NameList::RemoveRequestHeader, remove_request_headers)
        + name_ops(NameList::RemoveResponseHeader, remove_response_headers)
        + optional_op(basic_auth, |kv: KeyValue| TunnelOp::BasicAuth(kv))
        + optional_op(oauth, |o: OauthConfig| TunnelOp::Oauth(o))
        + optional_op(oidc, |o: OidcConfig| TunnelOp::Oidc(o))
        + optional_op(webhook_verification, |kv: KeyValue| TunnelOp::WebhookVerification(kv))
}

/// The calls for an HTTP endpoint whose scheme name, if any, denotes `scheme`.
pub open spec fn http_ops(c: HttpConfig, scheme: Option<SchemeKind>) -> Seq<TunnelOp> {
    endpoint_ops(c.endpoint) + http_edge_ops(c, scheme) + http_middleware_ops(c)
}

pub open spec fn edge_ops(c: EdgeConfig) -> Seq<TunnelOp> {
    optional_op(c.metadata, |s: String| TunnelOp::Metadata(s))
        + pair_ops(PairList::Label, c.labels@)
}

fn make_name_op(list: NameList, s: String) -> (r: TunnelOp)
    ensures
        r == name_op(list, s),
{
    match list {
        NameList::AllowCidr => TunnelOp::AllowCidr(s),
        NameList::DenyCidr => TunnelOp::DenyCidr(s),
        NameList::RemoveRequestHeader => TunnelOp::RemoveRequestHeader(s),
        NameList::RemoveResponseHeader => TunnelOp::RemoveResponseHeader(s),
    }
}

fn make_pair_op(list: PairList, kv: KeyValue) -> (r: TunnelOp)
    ensures
        r == pair_op(list, kv),
{
    match list {
        PairList::RequestHeader => TunnelOp::RequestHeader(kv),
        PairList::ResponseHeader => TunnelOp::ResponseHeader(kv),
        PairList::Label => TunnelOp::Label(kv),
    }
}

/// Appends one call per string of `items`, keeping their order.
fn push_names(ops: &mut Vec<TunnelOp>, list: NameList, items: Vec<String>)
    ensures
        final(ops)@ == old(ops)@ + name_ops(list, items@),
{
    let ghost start = ops@;
    let mut i: usize = 0;
    while i < items.len()
        invariant
            i <= items@.len(),
            ops@ == start + name_ops(list, items@.subrange(0, i as int)),
        decreases items@.len() - i,
    {
        let s = items[i].clone();
        ops.push(make_name_op(list, s));
        proof {
            assert(items@.subrange(0, i + 1) == items@.subrange(0, i as int).push(items@[i as int]));
        }
        i = i + 1;
    }
    proof {
        assert(items@.subrange(0, items@.len() as int) == items@);
    }
}

/// Appends one call per pair of `items`, keeping their order.
fn push_pairs(ops: &mut Vec<TunnelOp>, list: PairList, items: Vec<KeyValue>)
    ensures
        final(ops)@ == old(ops)@ + pair_ops(list, items@),
{
    let ghost start = ops@;
    let mut i: usize = 0;
    while i < items.len()
        invariant
            i <= items@.len(),
            ops@ == start + pair_ops(list, items@.subrange(0, i as int)),
        decreases items@.len() - i,
    {
        let kv = KeyValue { key: items[i].key.clone(), value: items[i].value.clone() };
        ops.push(make_pair_op(list, kv));
        proof {
            assert(items@.subrange(0, i + 1) == items@.subrange(0, i as int).push(items@[i as int]));
        }
        i = i + 1;
    }
    proof {
        assert(items@.subrange(0, items@.len() as int) == items@);
    }
}

/// The calls for the settings every endpoint shares, appended in order.
fn push_endpoint(ops: &mut Vec<TunnelOp>, e: EndpointConfig)
    ensures
        final(ops)@ == old(ops)@ + endpoint_ops(e),
{
    let ghost start = ops@;
    let ghost ec = e;
    let EndpointConfig { metadata, allow_cidr, deny_cidr, proxy_proto, forwards_to } = e;
    if let Some(m) = metadata {
        ops.push(TunnelOp::Metadata(m));
    }
    push_names(ops, NameList::AllowCidr, allow_cidr);
    push_names(ops, NameList::DenyCidr, deny_cidr);
    ops.push(TunnelOp::ProxyProto(proxy_proto));
    if let Some(f) = forwards_to {
        ops.push(TunnelOp::ForwardsTo(f));
    }
    assert(ops@ == start + endpoint_ops(ec));
}

/// The operations for a TCP endpoint builder, in the order they are issued.
pub fn tcp_plan(c: TcpConfig) -> (r: Vec<TunnelOp>)
    ensures
        r@ == tcp_ops(c),
{
    let ghost cc = c;
    let TcpConfig { endpoint, remote_address } = c;
    let mut ops: Vec<TunnelOp> = Vec::new();
    push_endpoint(&mut ops, endpoint);
    if let Some(a) = remote_address {
        ops.push(TunnelOp::RemoteAddr(a));
    }
    assert(ops@ == tcp_ops(cc));
    ops
}

/// The operations for a TLS endpoint builder; an error when exactly one of the
/// termination certificate and key is given.
pub fn tls_plan(c: TlsConfig) -> (r: Result<Vec<TunnelOp>, BridgeError>)
    ensures
        r is Ok <==> termination_consistent(c),
        r matches Ok(ops) ==> ops@ == tls_ops(c),
        r matches Err(e) ==> e.kind == ErrorKind::Config
            && e.message@ == "requires both terminationCertPEM and terminationKeyPEM"@,
{
    let ghost cc = c;
    let TlsConfig { endpoint, domain, mutual_tlsca, termination_cert_pem, termination_key_pem } = c;
    if termination_cert_pem.is_some() != termination_key_pem.is_some() {
        return Err(
            config_error(
                String::from_str("requires both terminationCertPEM and terminationKeyPEM"),
            ),
        );
    }
    let mut ops: Vec<TunnelOp> = Vec::new();
    push_endpoint(&mut ops, endpoint);
    if let Some(d) = domain {
        ops.push(TunnelOp::Domain(d));
    }
    if let Some(b) = mutual_tlsca {
        ops.push(TunnelOp::MutualTlsCa(b));
    }
    match (termination_cert_pem, termination_key_pem) {
        (Some(cert), Some(key)) => ops.push(TunnelOp::Termination(cert, key)),
        _ => {},
    }
    assert(ops@ == tls_ops(cc));
    Ok(ops)
}

/// The scheme an HTTP builder names, if its name parses.
pub open spec fn named_scheme(c: HttpConfig) -> Option<SchemeKind> {
    match c.scheme_name {
        Some(n) => scheme_of(n@),
        None => None,
    }
}

/// Whether an HTTP builder names a scheme that does not parse.
pub open spec fn scheme_rejected(c: HttpConfig) -> bool {
    c.scheme_name is Some && scheme_of(c.scheme_name->Some_0@) is None
}

/// The operations for an HTTP endpoint builder; an error when the scheme name
/// is not a scheme.
pub fn http_plan(c: HttpConfig) -> (r: Result<Vec<TunnelOp>, BridgeError>)
    ensures
        r is Err <==> scheme_rejected(c),
        r matches Ok(ops) ==> ops@ == http_ops(c, named_scheme(c)),
        r matches Err(e) ==> e.kind == ErrorKind::Config,
{
    let ghost cc = c;
    let scheme = match &c.scheme_name {
        Some(n) => match parse_scheme(n.as_str()) {
            Ok(k) => Some(k),
            Err(text) => {
                return Err(config_error(text));
            },
        },
        None => None,
    };
    assert(scheme == named_scheme(cc));
    let mut ops: Vec<TunnelOp> = Vec::new();
    push_endpoint(&mut ops, c.endpoint);
    let ghost after_endpoint = ops@;
    push_http_edge(&mut ops, scheme, c.domain, c.mutual_tlsca, c.compression, c.websocket_tcp_conversion);
    assert(ops@ == after_endpoint + http_edge_ops(cc, scheme));
    let ghost after_edge = ops@;
    push_middleware(
        &mut ops,
        c.request_headers,
        c.response_headers,
        c.remove_request_headers,
        c.remove_response_headers,
        c.basic_auth,
        c.oauth,
        c.oidc,
        c.webhook_verification,
    );
    assert(ops@ == after_edge + http_middleware_ops(cc));
    assert(ops@ == http_ops(cc, named_scheme(cc)));
    Ok(ops)
}

/// Appends the edge calls of an HTTP endpoint.
fn push_http_edge(
    ops: &mut Vec<TunnelOp>,
    scheme: Option<SchemeKind>,
    domain: Option<String>,
    mutual_tlsca: Option<Vec<u8>>,
    compression: bool,
    websocket_tcp_conversion: bool,
)
    ensures
        final(ops)@ == old(ops)@ + edge_settings_ops(
            scheme,
            domain,
            mutual_tlsca,
            compression,
            websocket_tcp_conversion,
        ),
{
    if let Some(k) = scheme {
        ops.push(TunnelOp::Scheme(k));
    }
    if let Some(d) = domain {
        ops.push(TunnelOp::Domain(d));
    }
    if let Some(b) = mutual_tlsca {
        ops.push(TunnelOp::MutualTlsCa(b));
    }
    if compression {
        ops.push(TunnelOp::Compression);
    }
    if websocket_tcp_conversion {
        ops.push(TunnelOp::WebsocketTcpConversion);
    }
}

/// Appends the middleware calls of an HTTP endpoint.
fn push_middleware(
    ops: &mut Vec<TunnelOp>,
    request_headers: Vec<KeyValue>,
    response_headers: Vec<KeyValue>,
    remove_request_headers: Vec<String>,
    remove_response_headers: Vec<String>,
    basic_auth: Option<KeyValue>,
    oauth: Option<OauthConfig>,
    oidc: Option<OidcConfig>,
    webhook_verification: Option<KeyValue>,
)
    ensures
        final(ops)@ == old(ops)@ + middleware_ops(
            request_headers@,
            response_headers@,
            remove_request_headers@,
            remove_response_headers@,
            basic_auth,
            oauth,
            oidc,
            webhook_verification,
        ),
{
    push_pairs(ops, PairList::RequestHeader, request_headers);
    push_pairs(ops, PairList::ResponseHeader, response_headers);
    push_names(ops, NameList::RemoveRequestHeader, remove_request_headers);
    push_names(ops, NameList::RemoveResponseHeader, remove_response_headers);
    if let Some(kv) = basic_auth {
        ops.push(TunnelOp::BasicAuth(kv));
    }
    if let Some(o) = oauth {
        ops.push(TunnelOp::Oauth(o));
    }
    if let Some(o) = oidc {
        ops.push(TunnelOp::Oidc(o));
    }
    if let Some(kv) = webhook_verification {
        ops.push(TunnelOp::WebhookVerification(kv));
    }
}

/// The operations for a labeled tunnel builder, labels in the host's order.
pub fn edge_plan(c: EdgeConfig) -> (r: Vec<TunnelOp>)
    ensures
        r@ == edge_ops(c),
{
    let ghost cc = c;
    let EdgeConfig { metadata, labels } = c;
    let mut ops: Vec<TunnelOp> = Vec::new();
    if let Some(m) = metadata {
        ops.push(TunnelOp::Metadata(m));
    }
    push_pairs(&mut ops, PairList::Label, labels);
    assert(ops@ == edge_ops(cc));
    ops
}

/// Number of calls the metadata setting contributes: one when present.
pub open spec fn metadata_len(e: EndpointConfig) -> int {
    if e.metadata is Some {
        1
    } else {
        0
    }
}

/// The CIDR allow and deny lists reach the native builder entry by entry, in
/// the host's order, with nothing dropped, merged or reordered: the allow
/// entries stand right after the metadata call, the deny entries right after
/// them. TCP, TLS and HTTP plans all begin with these common calls.
pub proof fn lemma_cidr_lists_kept_in_order(e: EndpointConfig)
    ensures
        forall|i: int|
            0 <= i < e.allow_cidr@.len() ==> #[trigger] endpoint_ops(e)[metadata_len(e) + i]
                == TunnelOp::AllowCidr(e.allow_cidr@[i]),
        forall|i: int|
            0 <= i < e.deny_cidr@.len() ==> #[trigger] endpoint_ops(e)[metadata_len(e)
                + e.allow_cidr@.len() + i] == TunnelOp::DenyCidr(e.deny_cidr@[i]),
        forall|c: TcpConfig|
            c.endpoint == e ==> (#[trigger] tcp_ops(c)).subrange(0, endpoint_ops(e).len() as int)
                == endpoint_ops(e),
        forall|c: TlsConfig|
            c.endpoint == e ==> (#[trigger] tls_ops(c)).subrange(0, endpoint_ops(e).len() as int)
                == endpoint_ops(e),
        forall|c: HttpConfig, k: Option<SchemeKind>|
            c.endpoint == e ==> (#[trigger] http_ops(c, k)).subrange(
                0,
                endpoint_ops(e).len() as int,
            ) == endpoint_ops(e),
{
    let head = optional_op(e.metadata, |s: String| TunnelOp::Metadata(s));
    let allow = name_ops(NameList::AllowCidr, e.allow_cidr@);
    let deny = name_ops(NameList::DenyCidr, e.deny_cidr@);
    assert(head.len() == metadata_len(e));
    assert forall|i: int| 0 <= i < e.allow_cidr@.len() implies #[trigger] endpoint_ops(e)[metadata_len(e) + i]
        == TunnelOp::AllowCidr(e.allow_cidr@[i]) by {
        assert((head + allow)[head.len() + i] == allow[i]);
    }
    assert forall|i: int| 0 <= i < e.deny_cidr@.len() implies #[trigger] endpoint_ops(e)[metadata_len(e)
        + e.allow_cidr@.len() + i] == TunnelOp::DenyCidr(e.deny_cidr@[i]) by {
        assert((head + allow + deny)[head.len() + allow.len() + i] == deny[i]);
    }
    assert forall|c: TcpConfig| c.endpoint == e implies (#[trigger] tcp_ops(c)).subrange(
        0,
        endpoint_ops(e).len() as int,
    ) == endpoint_ops(e) by {
        let rest = optional_op(c.remote_address, |s: String| TunnelOp::RemoteAddr(s));
        assert((endpoint_ops(e) + rest).subrange(0, endpoint_ops(e).len() as int) == endpoint_ops(e));
    }
    assert forall|c: TlsConfig| c.endpoint == e implies (#[trigger] tls_ops(c)).subrange(
        0,
        endpoint_ops(e).len() as int,
    ) == endpoint_ops(e) by {
        assert(tls_ops(c) == endpoint_ops(e) + (optional_op(c.domain, |s: String| TunnelOp::Domain(s))
            + optional_op(c.mutual_tlsca, |b: Vec<u8>| TunnelOp::MutualTlsCa(b))
            + termination_ops(c.termination_cert_pem, c.termination_key_pem)));
    }
    assert forall|c: HttpConfig, k: Option<SchemeKind>| c.endpoint == e implies (#[trigger] http_ops(
        c,
        k,
    )).subrange(0, endpoint_ops(e).len() as int) == endpoint_ops(e) by {
        assert(http_ops(c, k) == endpoint_ops(e) + (http_edge_ops(c, k) + http_middleware_ops(c)));
    }
}

/// TLS termination is configured exactly when both the certificate and the
/// key are given; with neither, the plan holds no termination call at all.
pub proof fn lemma_termination_only_with_both(c: TlsConfig)
    ensures
        (exists|i: int| 0 <= i < tls_ops(c).len() && (#[trigger] tls_ops(c)[i]) is Termination)
            <==> (c.termination_cert_pem is Some && c.termination_key_pem is Some),
{
    let e = c.endpoint;
    let meta = optional_op(e.metadata, |s: String| TunnelOp::Metadata(s));
    let allow = name_ops(NameList::AllowCidr, e.allow_cidr@);
    let deny = name_ops(NameList::DenyCidr, e.deny_cidr@);
    let proxy = seq![TunnelOp::ProxyProto(e.proxy_proto)];
    let fwd = optional_op(e.forwards_to, |s: String| TunnelOp::ForwardsTo(s));
    let dom = optional_op(c.domain, |s: String| TunnelOp::Domain(s));
    let ca = optional_op(c.mutual_tlsca, |b: Vec<u8>| TunnelOp::MutualTlsCa(b));
    let term = termination_ops(c.termination_cert_pem, c.termination_key_pem);
    let front = meta + allow + deny + proxy + fwd + dom + ca;
    assert(tls_ops(c) == front + term);
    assert forall|i: int| 0 <= i < front.len() implies !(#[trigger] front[i] is Termination) by {
        if i < meta.len() {
        } else if i < meta.len() + allow.len() {
            assert(front[i] == allow[i - meta.len()]);
        } else if i < meta.len() + allow.len() + deny.len() {
            assert(front[i] == deny[i - meta.len() - allow.len()]);
        } else {
        }
    }
    if c.termination_cert_pem is Some && c.termination_key_pem is Some {
        assert(tls_ops(c)[front.len() as int] is Termination);
    } else {
        assert(term.len() == 0);
        assert forall|i: int| 0 <= i < tls_ops(c).len() implies !(#[trigger] tls_ops(c)[i] is Termination) by {
            assert(tls_ops(c)[i] == front[i]);
        }
    }
}

/// The metadata a connected session echoes back: the configured string, or
/// the empty string when none was configured.
pub open spec fn echoed_metadata_of(c: SessionConfig) -> Seq<char> {
    match c.metadata {
        Some(m) => m@,
        None => Seq::empty(),
    }
}

pub fn echoed_metadata(c: &SessionConfig) -> (r: String)
    ensures
        r@ == echoed_metadata_of(*c),
{
    match &c.metadata {
        Some(m) => m.clone(),
        None => String::new(),
    }
}

} // verus!
