use net_infra::Alpn;
use net_infra::ConnectionInfo;
use net_infra::ConnectionParams;
use net_infra::DnsSource;
use net_infra::Host;
use net_infra::HttpRequestDecorator;
use net_infra::HttpRequestDecoratorSeq;
use net_infra::IpType;
use net_infra::RootCertificates;
use net_infra::RouteType;

#[test]
fn connection_info_description() {
    let connection_info = ConnectionInfo {
        address: Host::Domain("test.signal.org".to_string()),
        dns_source: DnsSource::SystemLookup,
        route_type: RouteType::Test,
    };

    assert_eq!(
        connection_info.description(),
        "route=test;dns_source=systemlookup;ip_type=Unknown"
    );
}

#[test]
fn description_reports_ip_family() {
    let info = ConnectionInfo {
        address: Host::Ipv4([127, 0, 0, 1]),
        dns_source: DnsSource::Cache,
        route_type: RouteType::Direct,
    };
    assert_eq!(info.description(), "route=direct;dns_source=cache;ip_type=V4");

    let info6 = ConnectionInfo {
        address: Host::Ipv6([0; 16]),
        dns_source: DnsSource::Static,
        route_type: RouteType::ProxyG,
    };
    assert_eq!(info6.description(), "route=proxyg;dns_source=static;ip_type=V6");
}

#[test]
fn ip_type_from_host() {
    assert_eq!(IpType::from_host(&Host::Domain("x".to_string())), IpType::Unknown);
    assert_eq!(IpType::from_host(&Host::Ipv4([1, 2, 3, 4])), IpType::V4);
    assert_eq!(IpType::from_host(&Host::Ipv6([0; 16])), IpType::V6);
}

#[test]
fn alpn_wire_tokens_are_length_delimited() {
    assert_eq!(Alpn::Http1_1.wire_token().as_slice(), b"\x08http/1.1");
    assert_eq!(Alpn::Http2.wire_token().as_slice(), b"\x02h2");
}

#[test]
fn connection_params_builders() {
    let params = ConnectionParams::new(
        RouteType::Direct,
        "sni.example",
        "host.example",
        443,
        HttpRequestDecoratorSeq(Vec::new()),
        RootCertificates::Native,
    );
    assert_eq!(params.sni, "sni.example");
    assert_eq!(params.host, "host.example");
    assert_eq!(params.port, 443);
    assert!(params.connection_confirmation_header.is_none());
    assert_eq!(params.http_request_decorator.0.len(), 0);

    let params = params
        .with_decorator(HttpRequestDecorator::PathPrefix(b"/chat".to_vec()))
        .with_certs(RootCertificates::FromDer(vec![vec![1, 2, 3]]))
        .with_confirmation_header(b"x-from-endpoint".to_vec());
    assert_eq!(params.http_request_decorator.0.len(), 1);
    assert_eq!(
        params.connection_confirmation_header.as_deref(),
        Some(b"x-from-endpoint".as_slice())
    );
    assert!(matches!(params.certs, RootCertificates::FromDer(_)));
}
