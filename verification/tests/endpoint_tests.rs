use net_infra::make_ws_config;
use net_infra::ConnectionParams;
use net_infra::EndpointConnection;
use net_infra::ErrorClass;
use net_infra::ErrorClassifier;
use net_infra::HttpRequestDecoratorSeq;
use net_infra::RetryConfig;
use net_infra::RootCertificates;
use net_infra::RouteType;
use net_infra::TransportConnectError;

fn params(route_type: RouteType, host: &str) -> ConnectionParams {
    ConnectionParams::new(
        route_type,
        host,
        host,
        443,
        HttpRequestDecoratorSeq(Vec::new()),
        RootCertificates::Native,
    )
}

#[test]
fn make_ws_config_keeps_endpoint_and_timeout() {
    let config = make_ws_config(b"/v1/websocket/".to_vec(), 10_000);
    assert_eq!(config.endpoint, b"/v1/websocket/".to_vec());
    assert_eq!(config.max_connection_time_ms, 10_000);
    assert!(config.keep_alive_interval_ms > 0);
    assert!(config.max_idle_time_ms > 0);
}

#[test]
fn new_multi_wraps_each_route_in_order() {
    let retry = RetryConfig { failure_threshold: 3, base_cooldown_ms: 100, max_cooldown_ms: 5000 };
    let endpoint = EndpointConnection::new_multi(
        vec![
            params(RouteType::Direct, "chat.example"),
            params(RouteType::ProxyF, "proxyf.example"),
            params(RouteType::ProxyG, "proxyg.example"),
        ],
        5_000,
        retry,
        make_ws_config(b"/v1/websocket/".to_vec(), 10_000),
    );
    let managers = &endpoint.manager.route_managers;
    assert_eq!(managers.len(), 3);
    assert_eq!(managers[0].connection_params.route_type, RouteType::Direct);
    assert_eq!(managers[1].connection_params.route_type, RouteType::ProxyF);
    assert_eq!(managers[2].connection_params.route_type, RouteType::ProxyG);
    for m in managers.iter() {
        assert_eq!(m.connect_timeout_ms, 5_000);
        assert_eq!(m.retry, retry);
        assert_eq!(m.consecutive_fails, 0);
        assert_eq!(m.cooldown_until_ms, 0);
    }
}

#[test]
fn transport_errors_classify_by_variant() {
    assert_eq!(TransportConnectError::DnsError.classify(), ErrorClass::Retryable);
    assert_eq!(TransportConnectError::TcpConnectionFailed.classify(), ErrorClass::Retryable);
    assert_eq!(TransportConnectError::TlsHandshakeFailed.classify(), ErrorClass::Retryable);
    assert_eq!(TransportConnectError::CertificateError.classify(), ErrorClass::Fatal);
    assert_eq!(TransportConnectError::InvalidConfiguration.classify(), ErrorClass::Fatal);
}
