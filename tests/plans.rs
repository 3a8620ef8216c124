use ngrok_java_native::builders::{forward_target, session_builder};
use ngrok_java_native::config::{
    echoed_metadata, edge_plan, http_plan, tcp_plan, tls_plan, ClientCredentials, ClientInfo,
    EdgeConfig, EndpointConfig, HttpConfig, KeyValue, OauthConfig, SchemeKind, SessionConfig,
    TcpConfig, TlsConfig, TunnelOp,
};
use ngrok_java_native::error::ErrorKind;
use ngrok_java_native::native::MAX_HEARTBEAT_MS;

fn s(x: &str) -> String {
    x.to_string()
}

fn kv(k: &str, v: &str) -> KeyValue {
    KeyValue { key: s(k), value: s(v) }
}

fn endpoint() -> EndpointConfig {
    EndpointConfig {
        metadata: None,
        allow_cidr: vec![],
        deny_cidr: vec![],
        proxy_proto: 0,
        forwards_to: None,
    }
}

fn tls(cert: Option<Vec<u8>>, key: Option<Vec<u8>>) -> TlsConfig {
    TlsConfig {
        endpoint: endpoint(),
        domain: None,
        mutual_tlsca: None,
        termination_cert_pem: cert,
        termination_key_pem: key,
    }
}

fn http() -> HttpConfig {
    HttpConfig {
        endpoint: endpoint(),
        scheme_name: None,
        domain: None,
        mutual_tlsca: None,
        compression: false,
        websocket_tcp_conversion: false,
        request_headers: vec![],
        response_headers: vec![],
        remove_request_headers: vec![],
        remove_response_headers: vec![],
        basic_auth: None,
        oauth: None,
        oidc: None,
        webhook_verification: None,
    }
}

fn session() -> SessionConfig {
    SessionConfig {
        authtoken: s("authtoken"),
        heartbeat_interval_ms: None,
        heartbeat_tolerance_ms: None,
        metadata: None,
        server_addr: None,
        ca_cert: None,
        client_infos: vec![],
    }
}

#[test]
fn allow_cidr_order_is_kept() {
    let mut e = endpoint();
    e.allow_cidr = vec![s("10.0.0.0/8"), s("192.168.0.0/16")];
    let ops = tcp_plan(TcpConfig { endpoint: e, remote_address: None });
    assert_eq!(
        ops,
        vec![
            TunnelOp::AllowCidr(s("10.0.0.0/8")),
            TunnelOp::AllowCidr(s("192.168.0.0/16")),
            TunnelOp::ProxyProto(0),
        ]
    );
}

#[test]
fn endpoint_settings_come_in_fixed_order() {
    let e = EndpointConfig {
        metadata: Some(s("meta")),
        allow_cidr: vec![s("1.1.1.0/24")],
        deny_cidr: vec![s("2.2.2.2/32"), s("3.3.3.3/32")],
        proxy_proto: 2,
        forwards_to: Some(s("localhost:80")),
    };
    let ops = tcp_plan(TcpConfig { endpoint: e, remote_address: Some(s("1.tcp.example.test:9000")) });
    assert_eq!(
        ops,
        vec![
            TunnelOp::Metadata(s("meta")),
            TunnelOp::AllowCidr(s("1.1.1.0/24")),
            TunnelOp::DenyCidr(s("2.2.2.2/32")),
            TunnelOp::DenyCidr(s("3.3.3.3/32")),
            TunnelOp::ProxyProto(2),
            TunnelOp::ForwardsTo(s("localhost:80")),
            TunnelOp::RemoteAddr(s("1.tcp.example.test:9000")),
        ]
    );
}

#[test]
fn tls_cert_without_key_is_refused() {
    let err = tls_plan(tls(Some(b"cert".to_vec()), None)).unwrap_err();
    assert_eq!(err.kind, ErrorKind::Config);
    assert!(err.message().contains("terminationCertPEM"));
    assert!(err.message().contains("terminationKeyPEM"));
}

#[test]
fn tls_key_without_cert_is_refused() {
    let err = tls_plan(tls(None, Some(b"key".to_vec()))).unwrap_err();
    assert_eq!(err.message(), "requires both terminationCertPEM and terminationKeyPEM");
}

#[test]
fn tls_cert_and_key_give_termination() {
    let ops = tls_plan(tls(Some(b"cert".to_vec()), Some(b"key".to_vec()))).unwrap();
    assert_eq!(ops.last(), Some(&TunnelOp::Termination(b"cert".to_vec(), b"key".to_vec())));
}

#[test]
fn tls_without_pem_has_no_termination() {
    let ops = tls_plan(tls(None, None)).unwrap();
    assert!(!ops.iter().any(|op| matches!(op, TunnelOp::Termination(_, _))));
    assert_eq!(ops, vec![TunnelOp::ProxyProto(0)]);
}

#[test]
fn tls_mutual_ca_bytes_pass_unchanged() {
    let mut c = tls(None, None);
    c.mutual_tlsca = Some(vec![0, 159, 255, 10]);
    c.domain = Some(s("example.test"));
    let ops = tls_plan(c).unwrap();
    assert_eq!(
        ops,
        vec![
            TunnelOp::ProxyProto(0),
            TunnelOp::Domain(s("example.test")),
            TunnelOp::MutualTlsCa(vec![0, 159, 255, 10]),
        ]
    );
}

#[test]
fn http_scheme_names_parse() {
    let mut c = http();
    c.scheme_name = Some(s("http"));
    assert_eq!(http_plan(c).unwrap()[1], TunnelOp::Scheme(SchemeKind::Http));
    let mut c = http();
    c.scheme_name = Some(s("HTTPS"));
    assert_eq!(http_plan(c).unwrap()[1], TunnelOp::Scheme(SchemeKind::Https));
}

#[test]
fn http_unknown_scheme_is_refused() {
    let mut c = http();
    c.scheme_name = Some(s("ftp"));
    let err = http_plan(c).unwrap_err();
    assert_eq!(err.kind, ErrorKind::Config);
    assert!(err.message().contains("ftp"));
}

#[test]
fn http_plan_keeps_list_order() {
    let mut c = http();
    c.compression = true;
    c.request_headers = vec![kv("X-A", "1"), kv("X-B", "2")];
    c.remove_response_headers = vec![s("Server"), s("Date")];
    c.basic_auth = Some(kv("user", "pass"));
    let oauth = OauthConfig {
        provider: s("google"),
        client: Some(ClientCredentials { id: s("id"), secret: s("secret") }),
        allow_emails: vec![s("a@example.test")],
        allow_domains: vec![],
        scopes: vec![s("openid")],
    };
    c.oauth = Some(oauth.clone());
    c.webhook_verification = Some(kv("github", "shh"));
    let ops = http_plan(c).unwrap();
    assert_eq!(
        ops,
        vec![
            TunnelOp::ProxyProto(0),
            TunnelOp::Compression,
            TunnelOp::RequestHeader(kv("X-A", "1")),
            TunnelOp::RequestHeader(kv("X-B", "2")),
            TunnelOp::RemoveResponseHeader(s("Server")),
            TunnelOp::RemoveResponseHeader(s("Date")),
            TunnelOp::BasicAuth(kv("user", "pass")),
            TunnelOp::Oauth(oauth),
            TunnelOp::WebhookVerification(kv("github", "shh")),
        ]
    );
}

#[test]
fn edge_plan_keeps_labels_in_order() {
    let c = EdgeConfig {
        metadata: Some(s("m")),
        labels: vec![kv("edge", "edghts_1"), kv("env", "prod")],
    };
    assert_eq!(
        edge_plan(c),
        vec![
            TunnelOp::Metadata(s("m")),
            TunnelOp::Label(kv("edge", "edghts_1")),
            TunnelOp::Label(kv("env", "prod")),
        ]
    );
}

#[test]
fn session_without_metadata_echoes_empty_string() {
    assert_eq!(echoed_metadata(&session()), "");
    let mut c = session();
    c.metadata = Some(s("my session"));
    assert_eq!(echoed_metadata(&c), "my session");
}

#[test]
fn session_with_no_optional_fields_builds() {
    assert!(session_builder(session()).is_ok());
}

#[test]
fn session_builder_takes_every_setting() {
    let mut c = session();
    c.heartbeat_interval_ms = Some(10_000);
    c.heartbeat_tolerance_ms = Some(MAX_HEARTBEAT_MS);
    c.metadata = Some(s("meta"));
    c.server_addr = Some(s("connect.example.test:443"));
    c.ca_cert = Some(b"-----BEGIN CERTIFICATE-----".to_vec());
    c.client_infos = vec![ClientInfo { client_type: s("host"), version: s("1.0"), comments: None }];
    assert!(session_builder(c).is_ok());
}

#[test]
fn session_heartbeat_too_long_is_refused() {
    let mut c = session();
    c.heartbeat_interval_ms = Some(MAX_HEARTBEAT_MS + 1);
    let err = session_builder(c).err().unwrap();
    assert_eq!(err.kind, ErrorKind::Config);
    assert_eq!(err.message(), "invalid heartbeat interval: 9223372036855000000");
    let mut c = session();
    c.heartbeat_tolerance_ms = Some(MAX_HEARTBEAT_MS + 1);
    assert_eq!(
        session_builder(c).err().unwrap().message(),
        "invalid heartbeat tolerance: 9223372036855000000"
    );
    let mut c = session();
    c.heartbeat_tolerance_ms = Some(u64::MAX);
    assert!(session_builder(c).is_err());
}

#[test]
fn session_bad_server_addr_is_refused() {
    let mut c = session();
    c.server_addr = Some(s("bad host:99999"));
    let err = session_builder(c).err().unwrap();
    assert_eq!(err.kind, ErrorKind::Config);
    assert_eq!(err.message(), "invalid server address: bad host:99999");
}

#[test]
fn forward_target_parses_urls() {
    let t = forward_target("HTTP://LocalHost:8080/app").unwrap();
    assert_eq!(t.url.as_str(), "http://localhost:8080/app");
    assert_eq!(t.text, "http://localhost:8080/app");
    let err = forward_target("not a url").unwrap_err();
    assert_eq!(err.kind, ErrorKind::Config);
    assert!(!err.message().is_empty());
}
