use vstd::prelude::*;

use std::str::FromStr;
use ngrok::config::{
    HttpTunnelBuilder, LabeledTunnelBuilder, OauthOptions, OidcOptions, ProxyProto, Scheme,
    TcpTunnelBuilder, TlsTunnelBuilder,
};
use std::time::Duration;

use ngrok::session::SessionBuilder;
use ngrok::Session;

use tracing::Level;
use url::Url;

use crate::config::SchemeKind;
use crate::error::opt_view;
use crate::logging::LogLevel;

verus! {

/// The scheme that ngrok's `Scheme::from_str` reads in a name, if any.
pub uninterp spec fn scheme_of(name: Seq<char>) -> Option<SchemeKind>;

/// Relies on ngrok's `Scheme::from_str`: it upper-cases the name and accepts
/// "HTTP" and "HTTPS"; the error's text is its `Display`.
#[verifier::external_body]
pub(crate) fn parse_scheme(name: &str) -> (r: Result<SchemeKind, String>)
    ensures
        r is Ok <==> scheme_of(name@) is Some,
        r matches Ok(k) ==> scheme_of(name@) == Some(k),
        name@ == "http"@ || name@ == "HTTP"@ ==> r matches Ok(SchemeKind::Http),
        name@ == "https"@ || name@ == "HTTPS"@ ==> r matches Ok(SchemeKind::Https),
{
    match Scheme::from_str(name) {
        Ok(Scheme::HTTP) => Ok(SchemeKind::Http),
        Ok(Scheme::HTTPS) => Ok(SchemeKind::Https),
        Err(e) => Err(e.to_string()),
    }
}

#[verifier::external_type_specification]
#[verifier::external_body]
pub struct ExSession(Session);

#[verifier::external_type_specification]
#[verifier::external_body]
pub struct ExSessionBuilder(SessionBuilder);

#[verifier::external_type_specification]
#[verifier::external_body]
pub struct ExTcpTunnelBuilder(TcpTunnelBuilder);

#[verifier::external_type_specification]
#[verifier::external_body]
pub struct ExTlsTunnelBuilder(TlsTunnelBuilder);

#[verifier::external_type_specification]
#[verifier::external_body]
pub struct ExHttpTunnelBuilder(HttpTunnelBuilder);

#[verifier::external_type_specification]
#[verifier::external_body]
pub struct ExLabeledTunnelBuilder(LabeledTunnelBuilder);

#[verifier::external_type_specification]
#[verifier::external_body]
pub struct ExOauthOptions(OauthOptions);

#[verifier::external_type_specification]
#[verifier::external_body]
pub struct ExOidcOptions(OidcOptions);

#[verifier::external_type_specification]
#[verifier::external_body]
pub struct ExUrl(Url);

/// What a tunnel builder holds, as plain values. One shape serves every kind
/// of builder; a field that a kind does not have keeps its initial value.
/// Added and removed HTTP headers are not tracked.
pub struct TunnelContents {
    pub metadata: Option<Seq<char>>,
    pub allowed: Seq<Seq<char>>,
    pub denied: Seq<Seq<char>>,
    /// PROXY protocol version: 0 (none), 1 or 2.
    pub proxy_proto: int,
    pub forwards_to: Option<Seq<char>>,
    pub remote_addr: Option<Seq<char>>,
    pub domain: Option<Seq<char>>,
    pub mutual_tlsca: Seq<Seq<u8>>,
    /// Certificate and key.
    pub termination: Option<(Seq<u8>, Seq<u8>)>,
    pub scheme: SchemeKind,
    pub compression: bool,
    pub websocket_tcp_conversion: bool,
    /// Username and password pairs.
    pub basic_auth: Seq<(Seq<char>, Seq<char>)>,
    pub oauth: Option<OauthContents>,
    pub oidc: Option<OidcContents>,
    /// Provider and secret.
    pub webhook_verification: Option<(Seq<char>, Seq<char>)>,
    pub labels: Map<Seq<char>, Seq<char>>,
}

/// What ngrok's OAuth options hold.
pub struct OauthContents {
    pub provider: Seq<char>,
    pub client_id: Seq<char>,
    pub client_secret: Seq<char>,
    pub allow_emails: Seq<Seq<char>>,
    pub allow_domains: Seq<Seq<char>>,
    pub scopes: Seq<Seq<char>>,
}

/// What ngrok's OIDC options hold.
pub struct OidcContents {
    pub issuer_url: Seq<char>,
    pub client_id: Seq<char>,
    pub client_secret: Seq<char>,
    pub allow_emails: Seq<Seq<char>>,
    pub allow_domains: Seq<Seq<char>>,
    pub scopes: Seq<Seq<char>>,
}

/// What a session builder holds of the settings the bridge gives it.
pub struct SessionContents {
    pub authtoken: Option<Seq<char>>,
    pub metadata: Option<Seq<char>>,
    pub ca_cert: Option<Seq<u8>>,
    /// Type, version and comments of each client, most recently added first.
    pub client_infos: Seq<(Seq<char>, Seq<char>, Option<Seq<char>>)>,
}

/// A tunnel builder as a session hands it out: nothing set, scheme HTTPS.
pub open spec fn fresh_tunnel() -> TunnelContents {
    TunnelContents {
        metadata: None,
        allowed: Seq::empty(),
        denied: Seq::empty(),
        proxy_proto: 0,
        forwards_to: None,
        remote_addr: None,
        domain: None,
        mutual_tlsca: Seq::empty(),
        termination: None,
        scheme: SchemeKind::Https,
        compression: false,
        websocket_tcp_conversion: false,
        basic_auth: Seq::empty(),
        oauth: None,
        oidc: None,
        webhook_verification: None,
        labels: Map::empty(),
    }
}

/// ngrok's `ProxyProto::from` on a version number, as that number.
pub open spec fn proxy_proto_value(v: i64) -> int {
    if v == 1 {
        1
    } else if v == 2 {
        2
    } else {
        0
    }
}

/// What a TCP endpoint builder holds.
pub uninterp spec fn tcp_contents(b: TcpTunnelBuilder) -> TunnelContents;

/// What a TLS endpoint builder holds.
pub uninterp spec fn tls_contents(b: TlsTunnelBuilder) -> TunnelContents;

/// What an HTTP endpoint builder holds.
pub uninterp spec fn http_contents(b: HttpTunnelBuilder) -> TunnelContents;

/// What a labeled tunnel builder holds.
pub uninterp spec fn edge_contents(b: LabeledTunnelBuilder) -> TunnelContents;

/// What OAuth options hold.
pub uninterp spec fn oauth_contents(o: OauthOptions) -> OauthContents;

/// What OIDC options hold.
pub uninterp spec fn oidc_contents(o: OidcOptions) -> OidcContents;

/// What a session builder holds.
pub uninterp spec fn session_contents(b: SessionBuilder) -> SessionContents;

/// Relies on ngrok's `Session::tcp_endpoint`: a fresh builder with the default options.
#[verifier::external_body]
pub(crate) fn tcp_builder_of(sess: &Session) -> (r: TcpTunnelBuilder)
    ensures
        tcp_contents(r) == fresh_tunnel(),
{
    sess.tcp_endpoint()
}

/// Relies on ngrok's `Session::tls_endpoint`: a fresh builder with the default options.
#[verifier::external_body]
pub(crate) fn tls_builder_of(sess: &Session) -> (r: TlsTunnelBuilder)
    ensures
        tls_contents(r) == fresh_tunnel(),
{
    sess.tls_endpoint()
}

/// Relies on ngrok's `Session::http_endpoint`: a fresh builder with the default options.
#[verifier::external_body]
pub(crate) fn http_builder_of(sess: &Session) -> (r: HttpTunnelBuilder)
    ensures
        http_contents(r) == fresh_tunnel(),
{
    sess.http_endpoint()
}

/// Relies on ngrok's `Session::labeled_tunnel`: a fresh builder with the default options.
#[verifier::external_body]
pub(crate) fn edge_builder_of(sess: &Session) -> (r: LabeledTunnelBuilder)
    ensures
        edge_contents(r) == fresh_tunnel(),
{
    sess.labeled_tunnel()
}

/// Relies on ngrok's `TcpTunnelBuilder::metadata`: sets the metadata.
#[verifier::external_body]
pub(crate) fn tcp_metadata(b: &mut TcpTunnelBuilder, metadata: String)
    ensures
        tcp_contents(*final(b)) == (TunnelContents { metadata: Some(metadata@), ..tcp_contents(*old(b)) }),
{
    b.metadata(metadata);
}

/// Relies on ngrok's `TcpTunnelBuilder::allow_cidr`: appends to the allow list.
#[verifier::external_body]
pub(crate) fn tcp_allow_cidr(b: &mut TcpTunnelBuilder, cidr: String)
    ensures
        tcp_contents(*final(b)) == (TunnelContents { allowed: tcp_contents(*old(b)).allowed.push(cidr@), ..tcp_contents(*old(b)) }),
{
    b.allow_cidr(cidr);
}

/// Relies on ngrok's `TcpTunnelBuilder::deny_cidr`: appends to the deny list.
#[verifier::external_body]
pub(crate) fn tcp_deny_cidr(b: &mut TcpTunnelBuilder, cidr: String)
    ensures
        tcp_contents(*final(b)) == (TunnelContents { denied: tcp_contents(*old(b)).denied.push(cidr@), ..tcp_contents(*old(b)) }),
{
    b.deny_cidr(cidr);
}

/// Relies on ngrok's `TcpTunnelBuilder::proxy_proto` with `ProxyProto::from` on the version: 1 and 2 name
/// themselves, any other number means none.
#[verifier::external_body]
pub(crate) fn tcp_proxy_proto(b: &mut TcpTunnelBuilder, version: i64)
    ensures
        tcp_contents(*final(b)) == (TunnelContents { proxy_proto: proxy_proto_value(version), ..tcp_contents(*old(b)) }),
{
    b.proxy_proto(ProxyProto::from(version));
}

/// Relies on ngrok's `TcpTunnelBuilder::forwards_to`: sets the forwarding target.
#[verifier::external_body]
pub(crate) fn tcp_forwards_to(b: &mut TcpTunnelBuilder, target: String)
    ensures
        tcp_contents(*final(b)) == (TunnelContents { forwards_to: Some(target@), ..tcp_contents(*old(b)) }),
{
    b.forwards_to(target);
}

/// Relies on ngrok's `TlsTunnelBuilder::metadata`: sets the metadata.
#[verifier::external_body]
pub(crate) fn tls_metadata(b: &mut TlsTunnelBuilder, metadata: String)
    ensures
        tls_contents(*final(b)) == (TunnelContents { metadata: Some(metadata@), ..tls_contents(*old(b)) }),
{
    b.metadata(metadata);
}

/// Relies on ngrok's `TlsTunnelBuilder::allow_cidr`: appends to the allow list.
#[verifier::external_body]
pub(crate) fn tls_allow_cidr(b: &mut TlsTunnelBuilder, cidr: String)
    ensures
        tls_contents(*final(b)) == (TunnelContents { allowed: tls_contents(*old(b)).allowed.push(cidr@), ..tls_contents(*old(b)) }),
{
    b.allow_cidr(cidr);
}

/// Relies on ngrok's `TlsTunnelBuilder::deny_cidr`: appends to the deny list.
#[verifier::external_body]
pub(crate) fn tls_deny_cidr(b: &mut TlsTunnelBuilder, cidr: String)
    ensures
        tls_contents(*final(b)) == (TunnelContents { denied: tls_contents(*old(b)).denied.push(cidr@), ..tls_contents(*old(b)) }),
{
    b.deny_cidr(cidr);
}

/// Relies on ngrok's `TlsTunnelBuilder::proxy_proto` with `ProxyProto::from` on the version: 1 and 2 name
/// themselves, any other number means none.
#[verifier::external_body]
pub(crate) fn tls_proxy_proto(b: &mut TlsTunnelBuilder, version: i64)
    ensures
        tls_contents(*final(b)) == (TunnelContents { proxy_proto: proxy_proto_value(version), ..tls_contents(*old(b)) }),
{
    b.proxy_proto(ProxyProto::from(version));
}

/// Relies on ngrok's `TlsTunnelBuilder::forwards_to`: sets the forwarding target.
#[verifier::external_body]
pub(crate) fn tls_forwards_to(b: &mut TlsTunnelBuilder, target: String)
    ensures
        tls_contents(*final(b)) == (TunnelContents { forwards_to: Some(target@), ..tls_contents(*old(b)) }),
{
    b.forwards_to(target);
}

/// Relies on ngrok's `HttpTunnelBuilder::metadata`: sets the metadata.
#[verifier::external_body]
pub(crate) fn http_metadata(b: &mut HttpTunnelBuilder, metadata: String)
    ensures
        http_contents(*final(b)) == (TunnelContents { metadata: Some(metadata@), ..http_contents(*old(b)) }),
{
    b.metadata(metadata);
}

/// Relies on ngrok's `HttpTunnelBuilder::allow_cidr`: appends to the allow list.
#[verifier::external_body]
pub(crate) fn http_allow_cidr(b: &mut HttpTunnelBuilder, cidr: String)
    ensures
        http_contents(*final(b)) == (TunnelContents { allowed: http_contents(*old(b)).allowed.push(cidr@), ..http_contents(*old(b)) }),
{
    b.allow_cidr(cidr);
}

/// Relies on ngrok's `HttpTunnelBuilder::deny_cidr`: appends to the deny list.
#[verifier::external_body]
pub(crate) fn http_deny_cidr(b: &mut HttpTunnelBuilder, cidr: String)
    ensures
        http_contents(*final(b)) == (TunnelContents { denied: http_contents(*old(b)).denied.push(cidr@), ..http_contents(*old(b)) }),
{
    b.deny_cidr(cidr);
}

/// Relies on ngrok's `HttpTunnelBuilder::proxy_proto` with `ProxyProto::from` on the version: 1 and 2 name
/// themselves, any other number means none.
#[verifier::external_body]
pub(crate) fn http_proxy_proto(b: &mut HttpTunnelBuilder, version: i64)
    ensures
        http_contents(*final(b)) == (TunnelContents { proxy_proto: proxy_proto_value(version), ..http_contents(*old(b)) }),
{
    b.proxy_proto(ProxyProto::from(version));
}

/// Relies on ngrok's `HttpTunnelBuilder::forwards_to`: sets the forwarding target.
#[verifier::external_body]
pub(crate) fn http_forwards_to(b: &mut HttpTunnelBuilder, target: String)
    ensures
        http_contents(*final(b)) == (TunnelContents { forwards_to: Some(target@), ..http_contents(*old(b)) }),
{
    b.forwards_to(target);
}

/// Relies on ngrok's `TcpTunnelBuilder::remote_addr`: sets the address.
#[verifier::external_body]
pub(crate) fn tcp_remote_addr(b: &mut TcpTunnelBuilder, addr: String)
    ensures
        tcp_contents(*final(b)) == (TunnelContents { remote_addr: Some(addr@), ..tcp_contents(*old(b)) }),
{
    b.remote_addr(addr);
}

/// Relies on ngrok's `TlsTunnelBuilder::domain`: sets the domain.
#[verifier::external_body]
pub(crate) fn tls_domain(b: &mut TlsTunnelBuilder, domain: String)
    ensures
        tls_contents(*final(b)) == (TunnelContents { domain: Some(domain@), ..tls_contents(*old(b)) }),
{
    b.domain(domain);
}

/// Relies on ngrok's `TlsTunnelBuilder::mutual_tlsca`: appends the bytes, unchanged.
#[verifier::external_body]
pub(crate) fn tls_mutual_tlsca(b: &mut TlsTunnelBuilder, ca: Vec<u8>)
    ensures
        tls_contents(*final(b)) == (TunnelContents { mutual_tlsca: tls_contents(*old(b)).mutual_tlsca.push(ca@), ..tls_contents(*old(b)) }),
{
    b.mutual_tlsca(bytes::Bytes::from(ca));
}

/// Relies on ngrok's `HttpTunnelBuilder::domain`: sets the domain.
#[verifier::external_body]
pub(crate) fn http_domain(b: &mut HttpTunnelBuilder, domain: String)
    ensures
        http_contents(*final(b)) == (TunnelContents { domain: Some(domain@), ..http_contents(*old(b)) }),
{
    b.domain(domain);
}

/// Relies on ngrok's `HttpTunnelBuilder::mutual_tlsca`: appends the bytes, unchanged.
#[verifier::external_body]
pub(crate) fn http_mutual_tlsca(b: &mut HttpTunnelBuilder, ca: Vec<u8>)
    ensures
        http_contents(*final(b)) == (TunnelContents { mutual_tlsca: http_contents(*old(b)).mutual_tlsca.push(ca@), ..http_contents(*old(b)) }),
{
    b.mutual_tlsca(bytes::Bytes::from(ca));
}

/// Relies on ngrok's `TlsTunnelBuilder::termination`: sets certificate and key, unchanged.
#[verifier::external_body]
pub(crate) fn tls_termination(b: &mut TlsTunnelBuilder, cert_pem: Vec<u8>, key_pem: Vec<u8>)
    ensures
        tls_contents(*final(b)) == (TunnelContents { termination: Some((cert_pem@, key_pem@)), ..tls_contents(*old(b)) }),
{
    b.termination(bytes::Bytes::from(cert_pem), bytes::Bytes::from(key_pem));
}

/// Relies on ngrok's `HttpTunnelBuilder::scheme`: sets the scheme.
#[verifier::external_body]
pub(crate) fn http_scheme(b: &mut HttpTunnelBuilder, scheme: SchemeKind)
    ensures
        http_contents(*final(b)) == (TunnelContents { scheme: scheme, ..http_contents(*old(b)) }),
{
    b.scheme(match scheme {
        SchemeKind::Http => Scheme::HTTP,
        SchemeKind::Https => Scheme::HTTPS,
    });
}

/// Relies on ngrok's `HttpTunnelBuilder::compression`: turns compression on.
#[verifier::external_body]
pub(crate) fn http_compression(b: &mut HttpTunnelBuilder)
    ensures
        http_contents(*final(b)) == (TunnelContents { compression: true, ..http_contents(*old(b)) }),
{
    b.compression();
}

/// Relies on ngrok's `HttpTunnelBuilder::websocket_tcp_conversion`: turns the conversion on.
#[verifier::external_body]
pub(crate) fn http_websocket_tcp_conversion(b: &mut HttpTunnelBuilder)
    ensures
        http_contents(*final(b)) == (TunnelContents { websocket_tcp_conversion: true, ..http_contents(*old(b)) }),
{
    b.websocket_tcp_conversion();
}

/// Relies on ngrok's `HttpTunnelBuilder::request_header`: adds a request header, which
/// the tracked contents leave out.
#[verifier::external_body]
pub(crate) fn http_request_header(b: &mut HttpTunnelBuilder, name: String, value: String)
    ensures
        http_contents(*final(b)) == http_contents(*old(b)),
{
    b.request_header(name, value);
}

/// Relies on ngrok's `HttpTunnelBuilder::response_header`: adds a response header, which
/// the tracked contents leave out.
#[verifier::external_body]
pub(crate) fn http_response_header(b: &mut HttpTunnelBuilder, name: String, value: String)
    ensures
        http_contents(*final(b)) == http_contents(*old(b)),
{
    b.response_header(name, value);
}

/// Relies on ngrok's `HttpTunnelBuilder::remove_request_header`: removes a request
/// header, which the tracked contents leave out.
#[verifier::external_body]
pub(crate) fn http_remove_request_header(b: &mut HttpTunnelBuilder, name: String)
    ensures
        http_contents(*final(b)) == http_contents(*old(b)),
{
    b.remove_request_header(name);
}

/// Relies on ngrok's `HttpTunnelBuilder::remove_response_header`: removes a response
/// header, which the tracked contents leave out.
#[verifier::external_body]
pub(crate) fn http_remove_response_header(b: &mut HttpTunnelBuilder, name: String)
    ensures
        http_contents(*final(b)) == http_contents(*old(b)),
{
    b.remove_response_header(name);
}

/// Relies on ngrok's `HttpTunnelBuilder::basic_auth`: appends a credential pair.
#[verifier::external_body]
pub(crate) fn http_basic_auth(b: &mut HttpTunnelBuilder, username: String, password: String)
    ensures
        http_contents(*final(b)) == (TunnelContents { basic_auth: http_contents(*old(b)).basic_auth.push((username@, password@)), ..http_contents(*old(b)) }),
{
    b.basic_auth(username, password);
}

/// Relies on ngrok's `HttpTunnelBuilder::oauth`: sets a copy of the options.
#[verifier::external_body]
pub(crate) fn http_oauth(b: &mut HttpTunnelBuilder, oauth: OauthOptions)
    ensures
        http_contents(*final(b)) == (TunnelContents { oauth: Some(oauth_contents(oauth)), ..http_contents(*old(b)) }),
{
    b.oauth(oauth);
}

/// Relies on ngrok's `HttpTunnelBuilder::oidc`: sets a copy of the options.
#[verifier::external_body]
pub(crate) fn http_oidc(b: &mut HttpTunnelBuilder, oidc: OidcOptions)
    ensures
        http_contents(*final(b)) == (TunnelContents { oidc: Some(oidc_contents(oidc)), ..http_contents(*old(b)) }),
{
    b.oidc(oidc);
}

/// Relies on ngrok's `HttpTunnelBuilder::webhook_verification`: sets provider and secret.
#[verifier::external_body]
pub(crate) fn http_webhook_verification(b: &mut HttpTunnelBuilder, provider: String, secret: String)
    ensures
        http_contents(*final(b)) == (TunnelContents { webhook_verification: Some((provider@, secret@)), ..http_contents(*old(b)) }),
{
    b.webhook_verification(provider, secret);
}

/// Relies on ngrok's `LabeledTunnelBuilder::metadata`: sets the metadata.
#[verifier::external_body]
pub(crate) fn edge_metadata(b: &mut LabeledTunnelBuilder, metadata: String)
    ensures
        edge_contents(*final(b)) == (TunnelContents { metadata: Some(metadata@), ..edge_contents(*old(b)) }),
{
    b.metadata(metadata);
}

/// Relies on ngrok's `LabeledTunnelBuilder::label`: inserts into its label map.
#[verifier::external_body]
pub(crate) fn edge_label(b: &mut LabeledTunnelBuilder, key: String, value: String)
    ensures
        edge_contents(*final(b)) == (TunnelContents { labels: edge_contents(*old(b)).labels.insert(key@, value@), ..edge_contents(*old(b)) }),
{
    b.label(key, value);
}

/// Relies on ngrok's `OauthOptions::new`: the provider, an empty client pair and empty lists.
#[verifier::external_body]
pub(crate) fn oauth_new(provider: String) -> (r: OauthOptions)
    ensures
        oauth_contents(r) == (OauthContents { provider: provider@, client_id: Seq::empty(), client_secret: Seq::empty(), allow_emails: Seq::empty(), allow_domains: Seq::empty(), scopes: Seq::empty() }),
{
    OauthOptions::new(provider)
}

/// Relies on ngrok's `OauthOptions::client_id`: sets the client id.
#[verifier::external_body]
pub(crate) fn oauth_client_id(o: &mut OauthOptions, id: String)
    ensures
        oauth_contents(*final(o)) == (OauthContents { client_id: id@, ..oauth_contents(*old(o)) }),
{
    o.client_id(id);
}

/// Relies on ngrok's `OauthOptions::client_secret`: sets the client secret.
#[verifier::external_body]
pub(crate) fn oauth_client_secret(o: &mut OauthOptions, secret: String)
    ensures
        oauth_contents(*final(o)) == (OauthContents { client_secret: secret@, ..oauth_contents(*old(o)) }),
{
    o.client_secret(secret);
}

/// Relies on ngrok's `OauthOptions::allow_email`: appends an email.
#[verifier::external_body]
pub(crate) fn oauth_allow_email(o: &mut OauthOptions, email: String)
    ensures
        oauth_contents(*final(o)) == (OauthContents { allow_emails: oauth_contents(*old(o)).allow_emails.push(email@), ..oauth_contents(*old(o)) }),
{
    o.allow_email(email);
}

/// Relies on ngrok's `OauthOptions::allow_domain`: appends a domain.
#[verifier::external_body]
pub(crate) fn oauth_allow_domain(o: &mut OauthOptions, domain: String)
    ensures
        oauth_contents(*final(o)) == (OauthContents { allow_domains: oauth_contents(*old(o)).allow_domains.push(domain@), ..oauth_contents(*old(o)) }),
{
    o.allow_domain(domain);
}

/// Relies on ngrok's `OauthOptions::scope`: appends a scope.
#[verifier::external_body]
pub(crate) fn oauth_scope(o: &mut OauthOptions, scope: String)
    ensures
        oauth_contents(*final(o)) == (OauthContents { scopes: oauth_contents(*old(o)).scopes.push(scope@), ..oauth_contents(*old(o)) }),
{
    o.scope(scope);
}

/// Relies on ngrok's `OidcOptions::new`: issuer and client as given, empty lists.
#[verifier::external_body]
pub(crate) fn oidc_new(issuer_url: String, client_id: String, client_secret: String) -> (r: OidcOptions)
    ensures
        oidc_contents(r) == (OidcContents { issuer_url: issuer_url@, client_id: client_id@, client_secret: client_secret@, allow_emails: Seq::empty(), allow_domains: Seq::empty(), scopes: Seq::empty() }),
{
    OidcOptions::new(issuer_url, client_id, client_secret)
}

/// Relies on ngrok's `OidcOptions::allow_email`: appends an email.
#[verifier::external_body]
pub(crate) fn oidc_allow_email(o: &mut OidcOptions, email: String)
    ensures
        oidc_contents(*final(o)) == (OidcContents { allow_emails: oidc_contents(*old(o)).allow_emails.push(email@), ..oidc_contents(*old(o)) }),
{
    o.allow_email(email);
}

/// Relies on ngrok's `OidcOptions::allow_domain`: appends a domain.
#[verifier::external_body]
pub(crate) fn oidc_allow_domain(o: &mut OidcOptions, domain: String)
    ensures
        oidc_contents(*final(o)) == (OidcContents { allow_domains: oidc_contents(*old(o)).allow_domains.push(domain@), ..oidc_contents(*old(o)) }),
{
    o.allow_domain(domain);
}

/// Relies on ngrok's `OidcOptions::scope`: appends a scope.
#[verifier::external_body]
pub(crate) fn oidc_scope(o: &mut OidcOptions, scope: String)
    ensures
        oidc_contents(*final(o)) == (OidcContents { scopes: oidc_contents(*old(o)).scopes.push(scope@), ..oidc_contents(*old(o)) }),
{
    o.scope(scope);
}

/// The longest heartbeat interval or tolerance, in milliseconds, that ngrok
/// takes: its nanoseconds must fit in an `i64`.
pub const MAX_HEARTBEAT_MS: u64 = 9223372036854;

/// The decimal digits of `n`.
pub open spec fn decimal(n: nat) -> Seq<char>
    decreases n,
{
    if n < 10 {
        seq!["0123456789"@[n as int]]
    } else {
        decimal(n / 10).push("0123456789"@[(n % 10) as int])
    }
}

/// Whether ngrok's `SessionBuilder::server_addr` takes an address.
pub uninterp spec fn server_addr_accepted(addr: Seq<char>) -> bool;

/// Relies on ngrok's `Session::builder`: no authtoken, metadata or CA
/// certificate, and ngrok's own client description.
#[verifier::external_body]
pub(crate) fn session_builder_new() -> (r: SessionBuilder)
    ensures
        session_contents(r) == (SessionContents {
            authtoken: None,
            metadata: None,
            ca_cert: None,
            client_infos: seq![("ngrok-rust"@, "0.14.0"@, None)],
        }),
{
    Session::builder()
}

/// Relies on ngrok's `SessionBuilder::authtoken`: sets the token.
#[verifier::external_body]
pub(crate) fn session_authtoken(b: &mut SessionBuilder, token: String)
    ensures
        session_contents(*final(b)) == (SessionContents { authtoken: Some(token@), ..session_contents(*old(b)) }),
{
    b.authtoken(token);
}

/// Relies on ngrok's `SessionBuilder::heartbeat_interval`: it fails exactly
/// when the interval's nanoseconds do not fit in an `i64`, and says so with
/// those nanoseconds.
#[verifier::external_body]
pub(crate) fn session_heartbeat_interval(b: &mut SessionBuilder, ms: u64) -> (r: Result<(), String>)
    ensures
        r is Ok <==> ms <= MAX_HEARTBEAT_MS,
        r matches Err(t) ==> t@ == "invalid heartbeat interval: "@ + decimal((ms * 1000000) as nat),
        session_contents(*final(b)) == session_contents(*old(b)),
{
    match b.heartbeat_interval(Duration::from_millis(ms)) {
        Ok(_) => Ok(()),
        Err(e) => Err(e.to_string()),
    }
}

/// Relies on ngrok's `SessionBuilder::heartbeat_tolerance`: it fails exactly
/// when the tolerance's nanoseconds do not fit in an `i64`, and says so with
/// those nanoseconds.
#[verifier::external_body]
pub(crate) fn session_heartbeat_tolerance(b: &mut SessionBuilder, ms: u64) -> (r: Result<(), String>)
    ensures
        r is Ok <==> ms <= MAX_HEARTBEAT_MS,
        r matches Err(t) ==> t@ == "invalid heartbeat tolerance: "@ + decimal((ms * 1000000) as nat),
        session_contents(*final(b)) == session_contents(*old(b)),
{
    match b.heartbeat_tolerance(Duration::from_millis(ms)) {
        Ok(_) => Ok(()),
        Err(e) => Err(e.to_string()),
    }
}

/// Relies on ngrok's `SessionBuilder::metadata`: sets the metadata.
#[verifier::external_body]
pub(crate) fn session_metadata(b: &mut SessionBuilder, metadata: String)
    ensures
        session_contents(*final(b)) == (SessionContents { metadata: Some(metadata@), ..session_contents(*old(b)) }),
{
    b.metadata(metadata);
}

/// Relies on ngrok's `SessionBuilder::server_addr`, which parses the address
/// as a host and port, depends on nothing else, and names the address when it
/// refuses it.
#[verifier::external_body]
pub(crate) fn session_server_addr(b: &mut SessionBuilder, addr: String) -> (r: Result<(), String>)
    ensures
        r is Ok <==> server_addr_accepted(addr@),
        r matches Err(t) ==> t@ == "invalid server address: "@ + addr@,
        session_contents(*final(b)) == session_contents(*old(b)),
{
    match b.server_addr(addr) {
        Ok(_) => Ok(()),
        Err(e) => Err(e.to_string()),
    }
}

/// Relies on ngrok's `SessionBuilder::ca_cert`: sets the bytes, unchanged.
#[verifier::external_body]
pub(crate) fn session_ca_cert(b: &mut SessionBuilder, ca: Vec<u8>)
    ensures
        session_contents(*final(b)) == (SessionContents { ca_cert: Some(ca@), ..session_contents(*old(b)) }),
{
    b.ca_cert(bytes::Bytes::from(ca));
}

/// A session builder's contents with one more client description in front.
pub open spec fn with_client_info(
    c: SessionContents,
    info: (Seq<char>, Seq<char>, Option<Seq<char>>),
) -> SessionContents {
    SessionContents { client_infos: seq![info] + c.client_infos, ..c }
}

/// Relies on ngrok's `SessionBuilder::client_info`: puts the description in
/// front of those already there.
#[verifier::external_body]
pub(crate) fn session_client_info(
    b: &mut SessionBuilder,
    client_type: String,
    version: String,
    comments: Option<String>,
)
    ensures
        session_contents(*final(b)) == with_client_info(
            session_contents(*old(b)),
            (client_type@, version@, opt_view(comments)),
        ),
{
    b.client_info(client_type, version, comments);
}

/// Whether each character of `s` is that of `lower` or of `upper` at its place.
pub open spec fn ascii_case_eq(s: Seq<char>, lower: Seq<char>, upper: Seq<char>) -> bool {
    &&& s.len() == lower.len()
    &&& forall|i: int| 0 <= i < s.len() ==> s[i] == lower[i] || s[i] == upper[i]
}

/// The digit a string denotes as an unsigned number when that number is below
/// ten: an optional '+', then zeros, then that one digit.
pub open spec fn small_number_digit(s: Seq<char>) -> Option<char> {
    let t = if s.len() > 0 && s[0] == '+' {
        s.drop_first()
    } else {
        s
    };
    if t.len() > 0 && forall|i: int| 0 <= i < t.len() - 1 ==> t[i] == '0' {
        Some(t.last())
    } else {
        None
    }
}

/// The level tracing reads in a name: the numbers 1 (error) to 5 (trace), or
/// one of the five level names in any ASCII case.
pub open spec fn level_named(s: Seq<char>) -> Option<LogLevel> {
    let d = small_number_digit(s);
    if d == Some('1') {
        Some(LogLevel::Error)
    } else if d == Some('2') {
        Some(LogLevel::Warn)
    } else if d == Some('3') {
        Some(LogLevel::Info)
    } else if d == Some('4') {
        Some(LogLevel::Debug)
    } else if d == Some('5') {
        Some(LogLevel::Trace)
    } else if ascii_case_eq(s, "error"@, "ERROR"@) {
        Some(LogLevel::Error)
    } else if ascii_case_eq(s, "warn"@, "WARN"@) {
        Some(LogLevel::Warn)
    } else if ascii_case_eq(s, "info"@, "INFO"@) {
        Some(LogLevel::Info)
    } else if ascii_case_eq(s, "debug"@, "DEBUG"@) {
        Some(LogLevel::Debug)
    } else if ascii_case_eq(s, "trace"@, "TRACE"@) {
        Some(LogLevel::Trace)
    } else {
        None
    }
}

/// Relies on tracing's `Level::from_str`: it reads the name as an unsigned
/// number and takes 1 to 5, and otherwise takes the five level names in any
/// ASCII case.
#[verifier::external_body]
pub(crate) fn parse_level(name: &str) -> (r: Option<LogLevel>)
    ensures
        r == level_named(name@),
{
    match Level::from_str(name) {
        Ok(Level::ERROR) => Some(LogLevel::Error),
        Ok(Level::WARN) => Some(LogLevel::Warn),
        Ok(Level::INFO) => Some(LogLevel::Info),
        Ok(Level::DEBUG) => Some(LogLevel::Debug),
        Ok(Level::TRACE) => Some(LogLevel::Trace),
        Ok(_) | Err(_) => None,
    }
}

/// The serialization of the URL that url's `Url::parse` reads in a string,
/// or none when it does not take the string as an absolute URL.
pub uninterp spec fn url_serialization(s: Seq<char>) -> Option<Seq<char>>;

/// Relies on url's `Url::parse`, with the parsed URL's `as_str`; the error's
/// text is its `Display`.
#[verifier::external_body]
pub(crate) fn parse_url(s: &str) -> (r: Result<(Url, String), String>)
    ensures
        r is Ok <==> url_serialization(s@) is Some,
        r matches Ok((_, text)) ==> url_serialization(s@) == Some(text@),
{
    match Url::parse(s) {
        Ok(u) => {
            let text = u.as_str().to_string();
            Ok((u, text))
        },
        Err(e) => Err(e.to_string()),
    }
}

} // verus!
