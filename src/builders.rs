use vstd::prelude::*;

use ngrok::config::{
    HttpTunnelBuilder, LabeledTunnelBuilder, OauthOptions, OidcOptions, TcpTunnelBuilder,
    TlsTunnelBuilder,
};
use ngrok::session::SessionBuilder;
use ngrok::Session;
use url::Url;

use crate::config::{
    edge_plan, http_plan, named_scheme, scheme_rejected, tcp_plan, termination_consistent, tls_plan, EdgeConfig,
    ClientInfo, HttpConfig, OauthConfig, OidcConfig, SessionConfig, TcpConfig, TlsConfig, TunnelOp,
};
use crate::contents::{
    edge_expected, http_expected, lemma_run_edge, lemma_run_http, lemma_run_tcp, lemma_run_tls,
    oauth_expected, oidc_expected, run, session_expected, tcp_expected, tls_expected, views,
    infos_reversed, TunnelKind,
};
use crate::error::config_error;
use crate::error::{BridgeError, ErrorKind};
use crate::native::{
    decimal, edge_contents, http_contents, oauth_contents, oidc_contents, session_contents,
    tcp_contents, tls_contents, with_client_info, OauthContents, OidcContents, SessionContents,
    parse_url, url_serialization,
    server_addr_accepted, session_authtoken, session_builder_new, session_ca_cert,
    session_client_info, session_heartbeat_interval, session_heartbeat_tolerance, session_metadata,
    session_server_addr, MAX_HEARTBEAT_MS,
    edge_builder_of, edge_label, edge_metadata, http_allow_cidr, http_basic_auth,
    http_builder_of, http_compression, http_deny_cidr, http_domain, http_forwards_to,
    http_metadata, http_mutual_tlsca, http_oauth, http_oidc, http_proxy_proto,
    http_remove_request_header, http_remove_response_header, http_request_header,
    http_response_header, http_scheme, http_webhook_verification, http_websocket_tcp_conversion,
    oauth_allow_domain, oauth_allow_email, oauth_client_id, oauth_client_secret, oauth_new,
    oauth_scope, oidc_allow_domain, oidc_allow_email, oidc_new, oidc_scope, tcp_allow_cidr,
    tcp_builder_of, tcp_deny_cidr, tcp_forwards_to, tcp_metadata, tcp_proxy_proto,
    tcp_remote_addr, tls_allow_cidr, tls_builder_of, tls_deny_cidr, tls_domain, tls_forwards_to,
    tls_metadata, tls_mutual_tlsca, tls_proxy_proto, tls_termination,
};

verus! {

/// Issues the calls of `ops` that a TCP endpoint has on `b`, in order; the
/// others do not exist on such a builder and are passed over.
fn apply_tcp(b: &mut TcpTunnelBuilder, ops: Vec<TunnelOp>)
    ensures
        tcp_contents(*final(b)) == run(TunnelKind::Tcp, tcp_contents(*old(b)), ops@),
{
    let ghost start = tcp_contents(*b);
    let ghost all = ops@;
    let ghost mut done: Seq<TunnelOp> = Seq::empty();
    let mut rest = ops;
    while rest.len() > 0
        invariant
            all == done + rest@,
            tcp_contents(*b) == run(TunnelKind::Tcp, start, done),
        decreases rest@.len(),
    {
        let ghost before = rest@;
        let op = rest.remove(0);
        let ghost g = op;
        proof {
            assert(before == seq![g] + rest@);
            assert(all == done.push(g) + rest@);
            assert(done.push(g).drop_last() == done);
        }
        match op {
            TunnelOp::Metadata(s) => tcp_metadata(b, s),
            TunnelOp::AllowCidr(s) => tcp_allow_cidr(b, s),
            TunnelOp::DenyCidr(s) => tcp_deny_cidr(b, s),
            TunnelOp::ProxyProto(v) => tcp_proxy_proto(b, v),
            TunnelOp::ForwardsTo(s) => tcp_forwards_to(b, s),
            TunnelOp::RemoteAddr(s) => tcp_remote_addr(b, s),
            _ => {},
        }
        proof {
            done = done.push(g);
        }
    }
    assert(done == all);
}

/// Issues the calls of `ops` that a TLS endpoint has on `b`, in order; the
/// others do not exist on such a builder and are passed over.
fn apply_tls(b: &mut TlsTunnelBuilder, ops: Vec<TunnelOp>)
    ensures
        tls_contents(*final(b)) == run(TunnelKind::Tls, tls_contents(*old(b)), ops@),
{
    let ghost start = tls_contents(*b);
    let ghost all = ops@;
    let ghost mut done: Seq<TunnelOp> = Seq::empty();
    let mut rest = ops;
    while rest.len() > 0
        invariant
            all == done + rest@,
            tls_contents(*b) == run(TunnelKind::Tls, start, done),
        decreases rest@.len(),
    {
        let ghost before = rest@;
        let op = rest.remove(0);
        let ghost g = op;
        proof {
            assert(before == seq![g] + rest@);
            assert(all == done.push(g) + rest@);
            assert(done.push(g).drop_last() == done);
        }
        match op {
            TunnelOp::Metadata(s) => tls_metadata(b, s),
            TunnelOp::AllowCidr(s) => tls_allow_cidr(b, s),
            TunnelOp::DenyCidr(s) => tls_deny_cidr(b, s),
            TunnelOp::ProxyProto(v) => tls_proxy_proto(b, v),
            TunnelOp::ForwardsTo(s) => tls_forwards_to(b, s),
            TunnelOp::Domain(s) => tls_domain(b, s),
            TunnelOp::MutualTlsCa(ca) => tls_mutual_tlsca(b, ca),
            TunnelOp::Termination(cert, key) => tls_termination(b, cert, key),
            _ => {},
        }
        proof {
            done = done.push(g);
        }
    }
    assert(done == all);
}

/// One more entry of a list, as text.
proof fn lemma_views_prefix(l: Seq<String>, i: int)
    requires
        0 <= i < l.len(),
    ensures
        views(l.subrange(0, i + 1)) == views(l.subrange(0, i)).push(l[i]@),
{
    assert(l.subrange(0, i + 1) == l.subrange(0, i).push(l[i]));
}

/// Builds ngrok's OAuth options: the provider, the client pair only when
/// configured, then the allowed emails, domains and scopes in the host's order.
fn oauth_options(c: OauthConfig) -> (r: OauthOptions)
    ensures
        oauth_contents(r) == oauth_expected(c),
{
    let ghost cc = c;
    let OauthConfig { provider, client, allow_emails, allow_domains, scopes } = c;
    let mut o = oauth_new(provider);
    if let Some(cred) = client {
        oauth_client_id(&mut o, cred.id);
        oauth_client_secret(&mut o, cred.secret);
    }
    let ghost base = oauth_contents(o);
    assert(views(allow_emails@.subrange(0, 0)) == Seq::<Seq<char>>::empty());
    let mut i: usize = 0;
    while i < allow_emails.len()
        invariant
            i <= allow_emails@.len(),
            oauth_contents(o) == (OauthContents { allow_emails: views(allow_emails@.subrange(0, i as int)), ..base }),
        decreases allow_emails@.len() - i,
    {
        proof { lemma_views_prefix(allow_emails@, i as int); }
        oauth_allow_email(&mut o, allow_emails[i].clone());
        i = i + 1;
    }
    proof { assert(allow_emails@.subrange(0, allow_emails@.len() as int) == allow_emails@); }
    let ghost base = oauth_contents(o);
    assert(views(allow_domains@.subrange(0, 0)) == Seq::<Seq<char>>::empty());
    let mut i: usize = 0;
    while i < allow_domains.len()
        invariant
            i <= allow_domains@.len(),
            oauth_contents(o) == (OauthContents { allow_domains: views(allow_domains@.subrange(0, i as int)), ..base }),
        decreases allow_domains@.len() - i,
    {
        proof { lemma_views_prefix(allow_domains@, i as int); }
        oauth_allow_domain(&mut o, allow_domains[i].clone());
        i = i + 1;
    }
    proof { assert(allow_domains@.subrange(0, allow_domains@.len() as int) == allow_domains@); }
    let ghost base = oauth_contents(o);
    assert(views(scopes@.subrange(0, 0)) == Seq::<Seq<char>>::empty());
    let mut i: usize = 0;
    while i < scopes.len()
        invariant
            i <= scopes@.len(),
            oauth_contents(o) == (OauthContents { scopes: views(scopes@.subrange(0, i as int)), ..base }),
        decreases scopes@.len() - i,
    {
        proof { lemma_views_prefix(scopes@, i as int); }
        oauth_scope(&mut o, scopes[i].clone());
        i = i + 1;
    }
    proof { assert(scopes@.subrange(0, scopes@.len() as int) == scopes@); }
    o
}

/// Builds ngrok's OIDC options: the block's own issuer and client, then the allowed emails, domains and scopes in the host's order.
fn oidc_options(c: OidcConfig) -> (r: OidcOptions)
    ensures
        oidc_contents(r) == oidc_expected(c),
{
    let ghost cc = c;
    let OidcConfig { issuer_url, client_id, client_secret, allow_emails, allow_domains, scopes } = c;
    let mut o = oidc_new(issuer_url, client_id, client_secret);
    let ghost base = oidc_contents(o);
    assert(views(allow_emails@.subrange(0, 0)) == Seq::<Seq<char>>::empty());
    let mut i: usize = 0;
    while i < allow_emails.len()
        invariant
            i <= allow_emails@.len(),
            oidc_contents(o) == (OidcContents { allow_emails: views(allow_emails@.subrange(0, i as int)), ..base }),
        decreases allow_emails@.len() - i,
    {
        proof { lemma_views_prefix(allow_emails@, i as int); }
        oidc_allow_email(&mut o, allow_emails[i].clone());
        i = i + 1;
    }
    proof { assert(allow_emails@.subrange(0, allow_emails@.len() as int) == allow_emails@); }
    let ghost base = oidc_contents(o);
    assert(views(allow_domains@.subrange(0, 0)) == Seq::<Seq<char>>::empty());
    let mut i: usize = 0;
    while i < allow_domains.len()
        invariant
            i <= allow_domains@.len(),
            oidc_contents(o) == (OidcContents { allow_domains: views(allow_domains@.subrange(0, i as int)), ..base }),
        decreases allow_domains@.len() - i,
    {
        proof { lemma_views_prefix(allow_domains@, i as int); }
        oidc_allow_domain(&mut o, allow_domains[i].clone());
        i = i + 1;
    }
    proof { assert(allow_domains@.subrange(0, allow_domains@.len() as int) == allow_domains@); }
    let ghost base = oidc_contents(o);
    assert(views(scopes@.subrange(0, 0)) == Seq::<Seq<char>>::empty());
    let mut i: usize = 0;
    while i < scopes.len()
        invariant
            i <= scopes@.len(),
            oidc_contents(o) == (OidcContents { scopes: views(scopes@.subrange(0, i as int)), ..base }),
        decreases scopes@.len() - i,
    {
        proof { lemma_views_prefix(scopes@, i as int); }
        oidc_scope(&mut o, scopes[i].clone());
        i = i + 1;
    }
    proof { assert(scopes@.subrange(0, scopes@.len() as int) == scopes@); }
    o
}

/// Issues the calls of `ops` that an HTTP endpoint has on `b`, in order; the
/// others do not exist on such a builder and are passed over.
fn apply_http(b: &mut HttpTunnelBuilder, ops: Vec<TunnelOp>)
    ensures
        http_contents(*final(b)) == run(TunnelKind::Http, http_contents(*old(b)), ops@),
{
    let ghost start = http_contents(*b);
    let ghost all = ops@;
    let ghost mut done: Seq<TunnelOp> = Seq::empty();
    let mut rest = ops;
    while rest.len() > 0
        invariant
            all == done + rest@,
            http_contents(*b) == run(TunnelKind::Http, start, done),
        decreases rest@.len(),
    {
        let ghost before = rest@;
        let op = rest.remove(0);
        let ghost g = op;
        proof {
            assert(before == seq![g] + rest@);
            assert(all == done.push(g) + rest@);
            assert(done.push(g).drop_last() == done);
        }
        match op {
            TunnelOp::Metadata(s) => http_metadata(b, s),
            TunnelOp::AllowCidr(s) => http_allow_cidr(b, s),
            TunnelOp::DenyCidr(s) => http_deny_cidr(b, s),
            TunnelOp::ProxyProto(v) => http_proxy_proto(b, v),
            TunnelOp::ForwardsTo(s) => http_forwards_to(b, s),
            TunnelOp::Domain(s) => http_domain(b, s),
            TunnelOp::MutualTlsCa(ca) => http_mutual_tlsca(b, ca),
            TunnelOp::Scheme(k) => http_scheme(b, k),
            TunnelOp::Compression => http_compression(b),
            TunnelOp::WebsocketTcpConversion => http_websocket_tcp_conversion(b),
            TunnelOp::RequestHeader(kv) => http_request_header(b, kv.key, kv.value),
            TunnelOp::ResponseHeader(kv) => http_response_header(b, kv.key, kv.value),
            TunnelOp::RemoveRequestHeader(s) => http_remove_request_header(b, s),
            TunnelOp::RemoveResponseHeader(s) => http_remove_response_header(b, s),
            TunnelOp::BasicAuth(kv) => http_basic_auth(b, kv.key, kv.value),
            TunnelOp::Oauth(c) => http_oauth(b, oauth_options(c)),
            TunnelOp::Oidc(c) => http_oidc(b, oidc_options(c)),
            TunnelOp::WebhookVerification(kv) => http_webhook_verification(b, kv.key, kv.value),
            _ => {},
        }
        proof {
            done = done.push(g);
        }
    }
    assert(done == all);
}

/// Issues the calls of `ops` that a labeled tunnel has on `b`, in order; the
/// others do not exist on such a builder and are passed over.
fn apply_edge(b: &mut LabeledTunnelBuilder, ops: Vec<TunnelOp>)
    ensures
        edge_contents(*final(b)) == run(TunnelKind::Edge, edge_contents(*old(b)), ops@),
{
    let ghost start = edge_contents(*b);
    let ghost all = ops@;
    let ghost mut done: Seq<TunnelOp> = Seq::empty();
    let mut rest = ops;
    while rest.len() > 0
        invariant
            all == done + rest@,
            edge_contents(*b) == run(TunnelKind::Edge, start, done),
        decreases rest@.len(),
    {
        let ghost before = rest@;
        let op = rest.remove(0);
        let ghost g = op;
        proof {
            assert(before == seq![g] + rest@);
            assert(all == done.push(g) + rest@);
            assert(done.push(g).drop_last() == done);
        }
        match op {
            TunnelOp::Metadata(s) => edge_metadata(b, s),
            TunnelOp::Label(kv) => edge_label(b, kv.key, kv.value),
            _ => {},
        }
        proof {
            done = done.push(g);
        }
    }
    assert(done == all);
}

/// A TCP endpoint builder on `sess` configured as the host asked.
pub fn tcp_builder(sess: &Session, c: TcpConfig) -> (r: TcpTunnelBuilder)
    ensures
        tcp_contents(r) == tcp_expected(c),
{
    let ghost cc = c;
    let mut b = tcp_builder_of(sess);
    apply_tcp(&mut b, tcp_plan(c));
    proof {
        lemma_run_tcp(cc);
    }
    b
}

/// A TLS endpoint builder on `sess` configured as the host asked; no builder
/// is made when exactly one of the termination certificate and key is given.
pub fn tls_builder(sess: &Session, c: TlsConfig) -> (r: Result<TlsTunnelBuilder, BridgeError>)
    ensures
        r is Ok <==> termination_consistent(c),
        r matches Ok(b) ==> tls_contents(b) == tls_expected(c),
        r matches Err(e) ==> e.kind == ErrorKind::Config
            && e.message@ == "requires both terminationCertPEM and terminationKeyPEM"@,
{
    let ghost cc = c;
    let ops = tls_plan(c)?;
    let mut b = tls_builder_of(sess);
    apply_tls(&mut b, ops);
    proof {
        lemma_run_tls(cc);
    }
    Ok(b)
}

/// An HTTP endpoint builder on `sess` configured as the host asked (all but
/// its headers, which the tracked contents leave out); no builder is made when
/// the scheme name is not a scheme.
pub fn http_builder(sess: &Session, c: HttpConfig) -> (r: Result<HttpTunnelBuilder, BridgeError>)
    ensures
        r is Err <==> scheme_rejected(c),
        r matches Ok(b) ==> http_contents(b) == http_expected(c, named_scheme(c)),
        r matches Err(e) ==> e.kind == ErrorKind::Config,
{
    let ghost cc = c;
    let ops = http_plan(c)?;
    let mut b = http_builder_of(sess);
    apply_http(&mut b, ops);
    proof {
        lemma_run_http(cc, named_scheme(cc));
    }
    Ok(b)
}

/// A labeled tunnel builder on `sess` configured as the host asked.
pub fn edge_builder(sess: &Session, c: EdgeConfig) -> (r: LabeledTunnelBuilder)
    ensures
        edge_contents(r) == edge_expected(c),
{
    let ghost cc = c;
    let mut b = edge_builder_of(sess);
    apply_edge(&mut b, edge_plan(c));
    proof {
        lemma_run_edge(cc);
    }
    b
}

/// The first setting of a session builder that ngrok refuses, as the text
/// ngrok gives for it: the heartbeat interval, then the tolerance (both in
/// nanoseconds), then the server address.
pub open spec fn session_refusal(c: SessionConfig) -> Option<Seq<char>> {
    if c.heartbeat_interval_ms is Some && c.heartbeat_interval_ms->Some_0 > MAX_HEARTBEAT_MS {
        Some(
            "invalid heartbeat interval: "@ + decimal(
                (c.heartbeat_interval_ms->Some_0 * 1000000) as nat,
            ),
        )
    } else if c.heartbeat_tolerance_ms is Some && c.heartbeat_tolerance_ms->Some_0
        > MAX_HEARTBEAT_MS {
        Some(
            "invalid heartbeat tolerance: "@ + decimal(
                (c.heartbeat_tolerance_ms->Some_0 * 1000000) as nat,
            ),
        )
    } else if c.server_addr is Some && !server_addr_accepted(c.server_addr->Some_0@) {
        Some("invalid server address: "@ + c.server_addr->Some_0@)
    } else {
        None
    }
}

/// A session builder configured as the host asked: authtoken, heartbeat
/// interval and tolerance, metadata, server address, CA certificate and client
/// descriptions (which ngrok keeps last-added first, ahead of its own). A
/// setting ngrok refuses gives a configuration error with ngrok's text.
pub fn session_builder(c: SessionConfig) -> (r: Result<SessionBuilder, BridgeError>)
    ensures
        r is Ok <==> session_refusal(c) is None,
        r matches Ok(b) ==> session_contents(b) == session_expected(c),
        r matches Err(e) ==> e.kind == ErrorKind::Config && session_refusal(c) == Some(e.message@),
{
    let ghost cc = c;
    let SessionConfig {
        authtoken,
        heartbeat_interval_ms,
        heartbeat_tolerance_ms,
        metadata,
        server_addr,
        ca_cert,
        client_infos,
    } = c;
    let mut b = session_builder_new();
    session_authtoken(&mut b, authtoken);
    if let Some(ms) = heartbeat_interval_ms {
        if let Err(text) = session_heartbeat_interval(&mut b, ms) {
            return Err(config_error(text));
        }
    }
    if let Some(ms) = heartbeat_tolerance_ms {
        if let Err(text) = session_heartbeat_tolerance(&mut b, ms) {
            return Err(config_error(text));
        }
    }
    if let Some(m) = metadata {
        session_metadata(&mut b, m);
    }
    if let Some(addr) = server_addr {
        if let Err(text) = session_server_addr(&mut b, addr) {
            return Err(config_error(text));
        }
    }
    if let Some(ca) = ca_cert {
        session_ca_cert(&mut b, ca);
    }
    let ghost base = session_contents(b);
    let mut i: usize = 0;
    while i < client_infos.len()
        invariant
            i <= client_infos@.len(),
            session_contents(b) == (SessionContents {
                client_infos: infos_reversed(client_infos@.subrange(0, i as int)) + base.client_infos,
                ..base
            }),
        decreases client_infos@.len() - i,
    {
        let info = &client_infos[i];
        let comments = match &info.comments {
            Some(t) => Some(t.clone()),
            None => None,
        };
        session_client_info(&mut b, info.client_type.clone(), info.version.clone(), comments);
        proof {
            let sub = client_infos@.subrange(0, i + 1);
            assert(sub.drop_last() == client_infos@.subrange(0, i as int));
            assert(sub.last() == client_infos@[i as int]);
            let x = (info.client_type@, info.version@, crate::error::opt_view(info.comments));
            let prev = infos_reversed(client_infos@.subrange(0, i as int));
            assert(infos_reversed(sub) == seq![x] + prev);
            assert(seq![x] + (prev + base.client_infos) == infos_reversed(sub) + base.client_infos);
        }
        i = i + 1;
    }
    proof {
        assert(client_infos@.subrange(0, client_infos@.len() as int) == client_infos@);
        assert(infos_reversed(Seq::<ClientInfo>::empty()) + base.client_infos == base.client_infos);
    }
    Ok(b)
}

/// The URL a forwarder sends its traffic to.
#[derive(Debug)]
pub struct ForwardTarget {
    pub url: Url,
    /// The URL as url serializes it.
    pub text: String,
}

/// The URL a forwarder sends its traffic to, parsed from `target`; a string
/// that is not an absolute URL is a configuration error.
pub fn forward_target(target: &str) -> (r: Result<ForwardTarget, BridgeError>)
    ensures
        r is Ok <==> url_serialization(target@) is Some,
        r matches Ok(t) ==> url_serialization(target@) == Some(t.text@),
        r matches Err(e) ==> e.kind == ErrorKind::Config,
{
    match parse_url(target) {
        Ok((url, text)) => Ok(ForwardTarget { url, text }),
        Err(text) => Err(config_error(text)),
    }
}

} // verus!
