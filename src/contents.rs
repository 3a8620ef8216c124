use vstd::prelude::*;

use crate::config::{
    edge_ops, endpoint_ops, http_edge_ops, http_middleware_ops, http_ops, name_ops, pair_ops,
    tcp_ops, termination_ops, tls_ops, ClientInfo, EdgeConfig, EndpointConfig, HttpConfig,
    KeyValue, NameList, OauthConfig, OidcConfig, PairList, SchemeKind, SessionConfig, TcpConfig,
    TlsConfig, TunnelOp,
};
use crate::error::opt_view;
use crate::native::{
    fresh_tunnel, proxy_proto_value, OauthContents, OidcContents, SessionContents, TunnelContents,
};

verus! {

/// The kinds of tunnel builder.
#[derive(PartialEq, Eq, Structural, Clone, Copy, Debug)]
pub enum TunnelKind {
    Tcp,
    Tls,
    Http,
    Edge,
}

/// Whether a builder of kind `k` has the call `op`.
pub open spec fn applies(k: TunnelKind, op: TunnelOp) -> bool {
    match op {
        TunnelOp::Metadata(_) => true,
        TunnelOp::AllowCidr(_) | TunnelOp::DenyCidr(_) | TunnelOp::ProxyProto(_)
        | TunnelOp::ForwardsTo(_) => k != TunnelKind::Edge,
        TunnelOp::RemoteAddr(_) => k == TunnelKind::Tcp,
        TunnelOp::Domain(_) | TunnelOp::MutualTlsCa(_) => k == TunnelKind::Tls || k
            == TunnelKind::Http,
        TunnelOp::Termination(_, _) => k == TunnelKind::Tls,
        TunnelOp::Label(_) => k == TunnelKind::Edge,
        _ => k == TunnelKind::Http,
    }
}

/// The strings of a list, as text.
pub open spec fn views(l: Seq<String>) -> Seq<Seq<char>> {
    l.map_values(|s: String| s@)
}

/// What OAuth options hold once built from the host's OAuth block.
pub open spec fn oauth_expected(o: OauthConfig) -> OauthContents {
    OauthContents {
        provider: o.provider@,
        client_id: match o.client {
            Some(cc) => cc.id@,
            None => Seq::empty(),
        },
        client_secret: match o.client {
            Some(cc) => cc.secret@,
            None => Seq::empty(),
        },
        allow_emails: views(o.allow_emails@),
        allow_domains: views(o.allow_domains@),
        scopes: views(o.scopes@),
    }
}

/// What OIDC options hold once built from the host's OIDC block.
pub open spec fn oidc_expected(o: OidcConfig) -> OidcContents {
    OidcContents {
        issuer_url: o.issuer_url@,
        client_id: o.client_id@,
        client_secret: o.client_secret@,
        allow_emails: views(o.allow_emails@),
        allow_domains: views(o.allow_domains@),
        scopes: views(o.scopes@),
    }
}

/// The effect of one call on a builder's contents. Header changes are not
/// tracked and leave them as they are.
pub open spec fn step(c: TunnelContents, op: TunnelOp) -> TunnelContents {
    match op {
        TunnelOp::Metadata(s) => TunnelContents { metadata: Some(s@), ..c },
        TunnelOp::AllowCidr(s) => TunnelContents { allowed: c.allowed.push(s@), ..c },
        TunnelOp::DenyCidr(s) => TunnelContents { denied: c.denied.push(s@), ..c },
        TunnelOp::ProxyProto(v) => TunnelContents { proxy_proto: proxy_proto_value(v), ..c },
        TunnelOp::ForwardsTo(s) => TunnelContents { forwards_to: Some(s@), ..c },
        TunnelOp::RemoteAddr(s) => TunnelContents { remote_addr: Some(s@), ..c },
        TunnelOp::Domain(s) => TunnelContents { domain: Some(s@), ..c },
        TunnelOp::MutualTlsCa(b) => TunnelContents { mutual_tlsca: c.mutual_tlsca.push(b@), ..c },
        TunnelOp::Termination(cert, key) => TunnelContents {
            termination: Some((cert@, key@)),
            ..c
        },
        TunnelOp::Scheme(k) => TunnelContents { scheme: k, ..c },
        TunnelOp::Compression => TunnelContents { compression: true, ..c },
        TunnelOp::WebsocketTcpConversion => TunnelContents { websocket_tcp_conversion: true, ..c },
        TunnelOp::BasicAuth(kv) => TunnelContents {
            basic_auth: c.basic_auth.push((kv.key@, kv.value@)),
            ..c
        },
        TunnelOp::Oauth(o) => TunnelContents { oauth: Some(oauth_expected(o)), ..c },
        TunnelOp::Oidc(o) => TunnelContents { oidc: Some(oidc_expected(o)), ..c },
        TunnelOp::WebhookVerification(kv) => TunnelContents {
            webhook_verification: Some((kv.key@, kv.value@)),
            ..c
        },
        TunnelOp::Label(kv) => TunnelContents { labels: c.labels.insert(kv.key@, kv.value@), ..c },
        _ => c,
    }
}

/// The contents of a builder of kind `k` after the calls `ops` it has, in order.
pub open spec fn run(k: TunnelKind, c: TunnelContents, ops: Seq<TunnelOp>) -> TunnelContents
    decreases ops.len(),
{
    if ops.len() == 0 {
        c
    } else {
        let before = run(k, c, ops.drop_last());
        if applies(k, ops.last()) {
            step(before, ops.last())
        } else {
            before
        }
    }
}

/// Labels inserted in order into a map: a later pair wins over an earlier one
/// with the same key.
pub open spec fn insert_all(m: Map<Seq<char>, Seq<char>>, l: Seq<KeyValue>) -> Map<
    Seq<char>,
    Seq<char>,
>
    decreases l.len(),
{
    if l.len() == 0 {
        m
    } else {
        insert_all(m, l.drop_last()).insert(l.last().key@, l.last().value@)
    }
}

/// The bytes of an optional blob, as a list of zero or one entry.
pub open spec fn optional_bytes(b: Option<Vec<u8>>) -> Seq<Seq<u8>> {
    match b {
        Some(v) => seq![v@],
        None => Seq::empty(),
    }
}

/// What the settings every endpoint shares leave in a fresh builder.
pub open spec fn endpoint_expected(e: EndpointConfig) -> TunnelContents {
    TunnelContents {
        metadata: opt_view(e.metadata),
        allowed: views(e.allow_cidr@),
        denied: views(e.deny_cidr@),
        proxy_proto: proxy_proto_value(e.proxy_proto),
        forwards_to: opt_view(e.forwards_to),
        ..fresh_tunnel()
    }
}

/// What a configured TCP endpoint builder holds.
pub open spec fn tcp_expected(c: TcpConfig) -> TunnelContents {
    TunnelContents { remote_addr: opt_view(c.remote_address), ..endpoint_expected(c.endpoint) }
}

/// What a configured TLS endpoint builder holds.
pub open spec fn tls_expected(c: TlsConfig) -> TunnelContents {
    TunnelContents {
        domain: opt_view(c.domain),
        mutual_tlsca: optional_bytes(c.mutual_tlsca),
        termination: match (c.termination_cert_pem, c.termination_key_pem) {
            (Some(cert), Some(key)) => Some((cert@, key@)),
            _ => None,
        },
        ..endpoint_expected(c.endpoint)
    }
}

/// What a configured HTTP endpoint builder holds when its scheme name denotes
/// `scheme` (HTTPS when it names none).
pub open spec fn http_expected(c: HttpConfig, scheme: Option<SchemeKind>) -> TunnelContents {
    TunnelContents {
        scheme: match scheme {
            Some(k) => k,
            None => SchemeKind::Https,
        },
        domain: opt_view(c.domain),
        mutual_tlsca: optional_bytes(c.mutual_tlsca),
        compression: c.compression,
        websocket_tcp_conversion: c.websocket_tcp_conversion,
        basic_auth: match c.basic_auth {
            Some(kv) => seq![(kv.key@, kv.value@)],
            None => Seq::empty(),
        },
        oauth: match c.oauth {
            Some(o) => Some(oauth_expected(o)),
            None => None,
        },
        oidc: match c.oidc {
            Some(o) => Some(oidc_expected(o)),
            None => None,
        },
        webhook_verification: match c.webhook_verification {
            Some(kv) => Some((kv.key@, kv.value@)),
            None => None,
        },
        ..endpoint_expected(c.endpoint)
    }
}

/// What a configured labeled tunnel builder holds.
pub open spec fn edge_expected(c: EdgeConfig) -> TunnelContents {
    TunnelContents {
        metadata: opt_view(c.metadata),
        labels: insert_all(Map::empty(), c.labels@),
        ..fresh_tunnel()
    }
}

/// Client descriptions as a session builder keeps them: the last added first.
pub open spec fn infos_reversed(l: Seq<ClientInfo>) -> Seq<(Seq<char>, Seq<char>, Option<Seq<char>>)>
    decreases l.len(),
{
    if l.len() == 0 {
        Seq::empty()
    } else {
        seq![(l.last().client_type@, l.last().version@, opt_view(l.last().comments))]
            + infos_reversed(l.drop_last())
    }
}

/// What a configured session builder holds.
pub open spec fn session_expected(c: SessionConfig) -> SessionContents {
    SessionContents {
        authtoken: Some(c.authtoken@),
        metadata: opt_view(c.metadata),
        ca_cert: match c.ca_cert {
            Some(b) => Some(b@),
            None => None,
        },
        client_infos: infos_reversed(c.client_infos@) + seq![("ngrok-rust"@, "0.14.0"@, None)],
    }
}

pub proof fn lemma_run_concat(k: TunnelKind, c: TunnelContents, a: Seq<TunnelOp>, b: Seq<TunnelOp>)
    ensures
        run(k, c, a + b) == run(k, run(k, c, a), b),
    decreases b.len(),
{
    if b.len() == 0 {
        assert(a + b == a);
    } else {
        assert((a + b).drop_last() == a + b.drop_last());
        assert((a + b).last() == b.last());
        lemma_run_concat(k, c, a, b.drop_last());
    }
}

pub proof fn lemma_run_one(k: TunnelKind, c: TunnelContents, op: TunnelOp)
    ensures
        run(k, c, seq![op]) == (if applies(k, op) {
            step(c, op)
        } else {
            c
        }),
{
    assert(seq![op].drop_last() == Seq::<TunnelOp>::empty());
    assert(run(k, c, Seq::<TunnelOp>::empty()) == c);
    assert(seq![op].last() == op);
}

pub proof fn lemma_run_names(k: TunnelKind, c: TunnelContents, list: NameList, l: Seq<String>)
    ensures
        run(k, c, name_ops(list, l)) == (match list {
            NameList::AllowCidr => if k != TunnelKind::Edge {
                TunnelContents { allowed: c.allowed + views(l), ..c }
            } else {
                c
            },
            NameList::DenyCidr => if k != TunnelKind::Edge {
                TunnelContents { denied: c.denied + views(l), ..c }
            } else {
                c
            },
            _ => c,
        }),
    decreases l.len(),
{
    if l.len() == 0 {
        assert(c.allowed + views(l) == c.allowed);
        assert(c.denied + views(l) == c.denied);
    } else {
        let ops = name_ops(list, l);
        assert(ops.drop_last() == name_ops(list, l.drop_last()));
        assert(views(l) == views(l.drop_last()).push(l.last()@));
        lemma_run_names(k, c, list, l.drop_last());
        assert(c.allowed + views(l) == (c.allowed + views(l.drop_last())).push(l.last()@));
        assert(c.denied + views(l) == (c.denied + views(l.drop_last())).push(l.last()@));
    }
}

/// Header pairs leave the tracked contents as they are; labels go into the map.
pub proof fn lemma_run_pairs(k: TunnelKind, c: TunnelContents, list: PairList, l: Seq<KeyValue>)
    ensures
        run(k, c, pair_ops(list, l)) == (if list == PairList::Label && k == TunnelKind::Edge {
            TunnelContents { labels: insert_all(c.labels, l), ..c }
        } else {
            c
        }),
    decreases l.len(),
{
    if l.len() > 0 {
        let ops = pair_ops(list, l);
        assert(ops.drop_last() == pair_ops(list, l.drop_last()));
        lemma_run_pairs(k, c, list, l.drop_last());
    }
}

/// The common settings' calls leave exactly `endpoint_expected` in a fresh
/// TCP, TLS or HTTP builder.
pub proof fn lemma_run_endpoint(k: TunnelKind, e: EndpointConfig)
    requires
        k != TunnelKind::Edge,
    ensures
        run(k, fresh_tunnel(), endpoint_ops(e)) == endpoint_expected(e),
{
    let c0 = fresh_tunnel();
    let meta = crate::config::optional_op(e.metadata, |s: String| TunnelOp::Metadata(s));
    let allow = name_ops(NameList::AllowCidr, e.allow_cidr@);
    let deny = name_ops(NameList::DenyCidr, e.deny_cidr@);
    let proxy = seq![TunnelOp::ProxyProto(e.proxy_proto)];
    let fwd = crate::config::optional_op(e.forwards_to, |s: String| TunnelOp::ForwardsTo(s));
    assert(endpoint_ops(e) == meta + allow + deny + proxy + fwd);
    lemma_run_concat(k, c0, meta + allow + deny + proxy, fwd);
    lemma_run_concat(k, c0, meta + allow + deny, proxy);
    lemma_run_concat(k, c0, meta + allow, deny);
    lemma_run_concat(k, c0, meta, allow);
    let c1 = run(k, c0, meta);
    match e.metadata {
        Some(m) => lemma_run_one(k, c0, TunnelOp::Metadata(m)),
        None => {},
    }
    assert(c1 == TunnelContents { metadata: opt_view(e.metadata), ..c0 });
    lemma_run_names(k, c1, NameList::AllowCidr, e.allow_cidr@);
    let c2 = run(k, c1, allow);
    lemma_run_names(k, c2, NameList::DenyCidr, e.deny_cidr@);
    let c3 = run(k, c2, deny);
    lemma_run_one(k, c3, TunnelOp::ProxyProto(e.proxy_proto));
    let c4 = run(k, c3, proxy);
    match e.forwards_to {
        Some(f) => lemma_run_one(k, c4, TunnelOp::ForwardsTo(f)),
        None => {},
    }
    assert(c0.allowed + views(e.allow_cidr@) == views(e.allow_cidr@));
    assert(c0.denied + views(e.deny_cidr@) == views(e.deny_cidr@));
}

/// The TCP plan leaves exactly `tcp_expected` in a fresh builder.
pub proof fn lemma_run_tcp(c: TcpConfig)
    ensures
        run(TunnelKind::Tcp, fresh_tunnel(), tcp_ops(c)) == tcp_expected(c),
{
    let k = TunnelKind::Tcp;
    let head = endpoint_ops(c.endpoint);
    let rest = crate::config::optional_op(c.remote_address, |s: String| TunnelOp::RemoteAddr(s));
    lemma_run_concat(k, fresh_tunnel(), head, rest);
    lemma_run_endpoint(k, c.endpoint);
    match c.remote_address {
        Some(a) => lemma_run_one(k, endpoint_expected(c.endpoint), TunnelOp::RemoteAddr(a)),
        None => {},
    }
}

/// The TLS plan leaves exactly `tls_expected` in a fresh builder.
pub proof fn lemma_run_tls(c: TlsConfig)
    ensures
        run(TunnelKind::Tls, fresh_tunnel(), tls_ops(c)) == tls_expected(c),
{
    let k = TunnelKind::Tls;
    let head = endpoint_ops(c.endpoint);
    let dom = crate::config::optional_op(c.domain, |s: String| TunnelOp::Domain(s));
    let ca = crate::config::optional_op(c.mutual_tlsca, |b: Vec<u8>| TunnelOp::MutualTlsCa(b));
    let term = termination_ops(c.termination_cert_pem, c.termination_key_pem);
    assert(tls_ops(c) == head + dom + ca + term);
    lemma_run_concat(k, fresh_tunnel(), head + dom + ca, term);
    lemma_run_concat(k, fresh_tunnel(), head + dom, ca);
    lemma_run_concat(k, fresh_tunnel(), head, dom);
    lemma_run_endpoint(k, c.endpoint);
    let c1 = endpoint_expected(c.endpoint);
    match c.domain {
        Some(d) => lemma_run_one(k, c1, TunnelOp::Domain(d)),
        None => {},
    }
    let c2 = run(k, c1, dom);
    match c.mutual_tlsca {
        Some(b) => lemma_run_one(k, c2, TunnelOp::MutualTlsCa(b)),
        None => {},
    }
    let c3 = run(k, c2, ca);
    match (c.termination_cert_pem, c.termination_key_pem) {
        (Some(cert), Some(key)) => lemma_run_one(k, c3, TunnelOp::Termination(cert, key)),
        _ => {},
    }
    assert(Seq::<Seq<u8>>::empty().push(c.mutual_tlsca->Some_0@) == seq![c.mutual_tlsca->Some_0@]);
}

/// The labeled-tunnel plan leaves exactly `edge_expected` in a fresh builder.
pub proof fn lemma_run_edge(c: EdgeConfig)
    ensures
        run(TunnelKind::Edge, fresh_tunnel(), edge_ops(c)) == edge_expected(c),
{
    let k = TunnelKind::Edge;
    let meta = crate::config::optional_op(c.metadata, |s: String| TunnelOp::Metadata(s));
    let labels = pair_ops(PairList::Label, c.labels@);
    lemma_run_concat(k, fresh_tunnel(), meta, labels);
    match c.metadata {
        Some(m) => lemma_run_one(k, fresh_tunnel(), TunnelOp::Metadata(m)),
        None => {},
    }
    lemma_run_pairs(k, run(k, fresh_tunnel(), meta), PairList::Label, c.labels@);
}

/// The calls for an HTTP endpoint's edge settings, from any contents.
#[verifier::rlimit(40)]
pub proof fn lemma_run_http_edge(c: TunnelContents, cfg: HttpConfig, scheme: Option<SchemeKind>)
    ensures
        run(TunnelKind::Http, c, http_edge_ops(cfg, scheme)) == (TunnelContents {
            scheme: match scheme {
                Some(x) => x,
                None => c.scheme,
            },
            domain: match cfg.domain {
                Some(d) => Some(d@),
                None => c.domain,
            },
            mutual_tlsca: c.mutual_tlsca + optional_bytes(cfg.mutual_tlsca),
            compression: c.compression || cfg.compression,
            websocket_tcp_conversion: c.websocket_tcp_conversion || cfg.websocket_tcp_conversion,
            ..c
        }),
{
    let k = TunnelKind::Http;
    let sch = crate::config::optional_op(scheme, |x: SchemeKind| TunnelOp::Scheme(x));
    let dom = crate::config::optional_op(cfg.domain, |s: String| TunnelOp::Domain(s));
    let ca = crate::config::optional_op(cfg.mutual_tlsca, |b: Vec<u8>| TunnelOp::MutualTlsCa(b));
    let comp = crate::config::flag_op(cfg.compression, TunnelOp::Compression);
    let ws = crate::config::flag_op(cfg.websocket_tcp_conversion, TunnelOp::WebsocketTcpConversion);
    assert(http_edge_ops(cfg, scheme) == sch + dom + ca + comp + ws);
    lemma_run_concat(k, c, sch + dom + ca + comp, ws);
    lemma_run_concat(k, c, sch + dom + ca, comp);
    lemma_run_concat(k, c, sch + dom, ca);
    lemma_run_concat(k, c, sch, dom);
    match scheme {
        Some(x) => lemma_run_one(k, c, TunnelOp::Scheme(x)),
        None => {},
    }
    let c2 = run(k, c, sch);
    match cfg.domain {
        Some(d) => lemma_run_one(k, c2, TunnelOp::Domain(d)),
        None => {},
    }
    let c3 = run(k, c2, dom);
    match cfg.mutual_tlsca {
        Some(b) => lemma_run_one(k, c3, TunnelOp::MutualTlsCa(b)),
        None => {},
    }
    let c4 = run(k, c3, ca);
    if cfg.compression {
        lemma_run_one(k, c4, TunnelOp::Compression);
    }
    let c5 = run(k, c4, comp);
    if cfg.websocket_tcp_conversion {
        lemma_run_one(k, c5, TunnelOp::WebsocketTcpConversion);
    }
    assert(c.mutual_tlsca + Seq::<Seq<u8>>::empty() == c.mutual_tlsca);
}

/// The calls for an HTTP endpoint's middleware, from any contents.
#[verifier::rlimit(40)]
pub proof fn lemma_run_http_middleware(c: TunnelContents, cfg: HttpConfig)
    ensures
        run(TunnelKind::Http, c, http_middleware_ops(cfg)) == (TunnelContents {
            basic_auth: match cfg.basic_auth {
                Some(kv) => c.basic_auth.push((kv.key@, kv.value@)),
                None => c.basic_auth,
            },
            oauth: match cfg.oauth {
                Some(o) => Some(oauth_expected(o)),
                None => c.oauth,
            },
            oidc: match cfg.oidc {
                Some(o) => Some(oidc_expected(o)),
                None => c.oidc,
            },
            webhook_verification: match cfg.webhook_verification {
                Some(kv) => Some((kv.key@, kv.value@)),
                None => c.webhook_verification,
            },
            ..c
        }),
{
    let k = TunnelKind::Http;
    let rq = pair_ops(PairList::RequestHeader, cfg.request_headers@);
    let rs = pair_ops(PairList::ResponseHeader, cfg.response_headers@);
    let rmq = name_ops(NameList::RemoveRequestHeader, cfg.remove_request_headers@);
    let rms = name_ops(NameList::RemoveResponseHeader, cfg.remove_response_headers@);
    let ba = crate::config::optional_op(cfg.basic_auth, |kv: KeyValue| TunnelOp::BasicAuth(kv));
    let oa = crate::config::optional_op(cfg.oauth, |o: OauthConfig| TunnelOp::Oauth(o));
    let oi = crate::config::optional_op(cfg.oidc, |o: OidcConfig| TunnelOp::Oidc(o));
    let wh = crate::config::optional_op(
        cfg.webhook_verification,
        |kv: KeyValue| TunnelOp::WebhookVerification(kv),
    );
    assert(http_middleware_ops(cfg) == rq + rs + rmq + rms + ba + oa + oi + wh);
    lemma_run_concat(k, c, rq + rs + rmq + rms + ba + oa + oi, wh);
    lemma_run_concat(k, c, rq + rs + rmq + rms + ba + oa, oi);
    lemma_run_concat(k, c, rq + rs + rmq + rms + ba, oa);
    lemma_run_concat(k, c, rq + rs + rmq + rms, ba);
    lemma_run_concat(k, c, rq + rs + rmq, rms);
    lemma_run_concat(k, c, rq + rs, rmq);
    lemma_run_concat(k, c, rq, rs);
    lemma_run_pairs(k, c, PairList::RequestHeader, cfg.request_headers@);
    lemma_run_pairs(k, c, PairList::ResponseHeader, cfg.response_headers@);
    lemma_run_names(k, c, NameList::RemoveRequestHeader, cfg.remove_request_headers@);
    lemma_run_names(k, c, NameList::RemoveResponseHeader, cfg.remove_response_headers@);
    match cfg.basic_auth {
        Some(kv) => lemma_run_one(k, c, TunnelOp::BasicAuth(kv)),
        None => {},
    }
    let c7 = run(k, c, ba);
    match cfg.oauth {
        Some(o) => lemma_run_one(k, c7, TunnelOp::Oauth(o)),
        None => {},
    }
    let c8 = run(k, c7, oa);
    match cfg.oidc {
        Some(o) => lemma_run_one(k, c8, TunnelOp::Oidc(o)),
        None => {},
    }
    let c9 = run(k, c8, oi);
    match cfg.webhook_verification {
        Some(kv) => lemma_run_one(k, c9, TunnelOp::WebhookVerification(kv)),
        None => {},
    }
}

/// The HTTP plan leaves exactly `http_expected` in a fresh builder.
pub proof fn lemma_run_http(c: HttpConfig, scheme: Option<SchemeKind>)
    ensures
        run(TunnelKind::Http, fresh_tunnel(), http_ops(c, scheme)) == http_expected(c, scheme),
{
    let k = TunnelKind::Http;
    let head = endpoint_ops(c.endpoint);
    let edge = http_edge_ops(c, scheme);
    let mid = http_middleware_ops(c);
    lemma_run_concat(k, fresh_tunnel(), head + edge, mid);
    lemma_run_concat(k, fresh_tunnel(), head, edge);
    lemma_run_endpoint(k, c.endpoint);
    lemma_run_http_edge(endpoint_expected(c.endpoint), c, scheme);
    lemma_run_http_middleware(run(k, endpoint_expected(c.endpoint), edge), c);
    assert(Seq::<Seq<u8>>::empty() + optional_bytes(c.mutual_tlsca) == optional_bytes(c.mutual_tlsca));
    assert(Seq::<(Seq<char>, Seq<char>)>::empty().push(
        (c.basic_auth->Some_0.key@, c.basic_auth->Some_0.value@),
    ) == seq![(c.basic_auth->Some_0.key@, c.basic_auth->Some_0.value@)]);
}

} // verus!
