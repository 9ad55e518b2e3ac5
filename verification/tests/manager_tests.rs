use net_infra::cooldown_after;
use net_infra::ConnectionParams;
use net_infra::DnsSource;
use net_infra::ErrorClass;
use net_infra::ErrorClassifier;
use net_infra::Host;
use net_infra::HttpRequestDecoratorSeq;
use net_infra::MultiRouteConnectionManager;
use net_infra::RetryConfig;
use net_infra::RootCertificates;
use net_infra::RouteAttemptOutcome;
use net_infra::RouteConnectError;
use net_infra::RouteType;
use net_infra::SingleRouteThrottlingConnectionManager;
use net_infra::TransportConnectError;

fn params(route_type: RouteType, host: &str) -> ConnectionParams {
    ConnectionParams::new(
        route_type,
        host,
        host,
        443,
        HttpRequestDecoratorSeq(Vec::new()),
        RootCertificates::Native,
    )
}

fn retry() -> RetryConfig {
    RetryConfig { failure_threshold: 2, base_cooldown_ms: 100, max_cooldown_ms: 1000 }
}

fn manager(route_type: RouteType) -> SingleRouteThrottlingConnectionManager {
    SingleRouteThrottlingConnectionManager::new(params(route_type, "host.example"), 5000, retry())
}

#[test]
fn failures_below_threshold_do_not_throttle() {
    let mut m = manager(RouteType::Direct);
    let r = m.connect(0, &RouteAttemptOutcome::Failed(TransportConnectError::TcpConnectionFailed));
    assert!(matches!(r, Err(RouteConnectError::Transport(_))));
    assert_eq!(m.consecutive_fails, 1);
    assert_eq!(m.cooldown_until_ms, 0);

    let r = m.connect(
        10,
        &RouteAttemptOutcome::Connected(DnsSource::Test, Host::Domain("host.example".to_string())),
    );
    assert!(r.is_ok());
    assert_eq!(m.consecutive_fails, 0);
}

#[test]
fn threshold_failures_fail_fast_until_deadline() {
    let mut m = manager(RouteType::Direct);
    assert!(m
        .connect(0, &RouteAttemptOutcome::Failed(TransportConnectError::TcpConnectionFailed))
        .is_err());
    assert!(m.connect(10, &RouteAttemptOutcome::TimedOut).is_err());
    assert_eq!(m.consecutive_fails, 2);
    assert_eq!(m.cooldown_until_ms, 110);

    // Before the deadline the call is refused without consulting the
    // network: even a would-be success is not attempted.
    let r = m.connect(
        50,
        &RouteAttemptOutcome::Connected(DnsSource::Test, Host::Domain("host.example".to_string())),
    );
    match r {
        Err(RouteConnectError::Throttled { retry_at_ms }) => assert_eq!(retry_at_ms, 110),
        other => panic!("expected a throttled error, got {:?}", other),
    }
    assert_eq!(m.consecutive_fails, 2);

    // At the deadline the attempt goes through again.
    let r = m.connect(
        110,
        &RouteAttemptOutcome::Connected(DnsSource::Test, Host::Domain("host.example".to_string())),
    );
    assert!(r.is_ok());
    assert_eq!(m.consecutive_fails, 0);
    assert_eq!(m.cooldown_until_ms, 0);
}

#[test]
fn throttled_error_is_retryable() {
    let e = RouteConnectError::Throttled { retry_at_ms: 42 };
    assert_eq!(e.classify(), ErrorClass::Retryable);
    assert_eq!(RouteConnectError::TimedOut.classify(), ErrorClass::Retryable);
    assert_eq!(
        RouteConnectError::Transport(TransportConnectError::CertificateError).classify(),
        ErrorClass::Fatal
    );
}

#[test]
fn backoff_is_monotone_and_capped() {
    let cfg = RetryConfig { failure_threshold: 1, base_cooldown_ms: 100, max_cooldown_ms: 1000 };
    assert_eq!(cooldown_after(&cfg, 0), 0);
    assert_eq!(cooldown_after(&cfg, 1), 100);
    assert_eq!(cooldown_after(&cfg, 2), 200);
    assert_eq!(cooldown_after(&cfg, 3), 400);
    assert_eq!(cooldown_after(&cfg, 4), 800);
    assert_eq!(cooldown_after(&cfg, 5), 1000);
    assert_eq!(cooldown_after(&cfg, 6), 1000);
    let mut prev: u64 = 0;
    for n in 0u32..64 {
        let d = cooldown_after(&cfg, n);
        assert!(d >= prev);
        assert!(d <= cfg.max_cooldown_ms);
        prev = d;
    }
}

#[test]
fn network_change_clears_cooldown() {
    let mut m = manager(RouteType::Direct);
    assert!(m.connect(0, &RouteAttemptOutcome::TimedOut).is_err());
    assert!(m.connect(1, &RouteAttemptOutcome::TimedOut).is_err());
    assert!(m.cooldown_until_ms > 1);
    m.on_network_change();
    assert_eq!(m.cooldown_until_ms, 0);
    let r = m.connect(
        2,
        &RouteAttemptOutcome::Connected(DnsSource::Test, Host::Domain("host.example".to_string())),
    );
    assert!(r.is_ok());
}

#[test]
fn fatal_failure_leaves_throttling_state_untouched() {
    let mut m = manager(RouteType::Direct);
    let r = m.connect(0, &RouteAttemptOutcome::Failed(TransportConnectError::CertificateError));
    assert!(matches!(
        r,
        Err(RouteConnectError::Transport(TransportConnectError::CertificateError))
    ));
    assert_eq!(m.consecutive_fails, 0);
    assert_eq!(m.cooldown_until_ms, 0);
}

#[test]
fn first_success_stops_the_walk() {
    let mut multi = MultiRouteConnectionManager::new(vec![
        manager(RouteType::Direct),
        manager(RouteType::ProxyF),
        manager(RouteType::ProxyG),
    ]);
    let outcomes = vec![
        RouteAttemptOutcome::Connected(DnsSource::Test, Host::Domain("direct.example".to_string())),
        RouteAttemptOutcome::Connected(DnsSource::Test, Host::Domain("proxyf.example".to_string())),
        RouteAttemptOutcome::Connected(DnsSource::Test, Host::Domain("proxyg.example".to_string())),
    ];
    let (idx, info) = multi.connect(100, &outcomes).unwrap();
    assert_eq!(idx, 0);
    assert_eq!(info.route_type, RouteType::Direct);
    // The later routes were never attempted in that call.
    assert_eq!(multi.route_managers[1].last_attempt_ms, 0);
    assert_eq!(multi.route_managers[2].last_attempt_ms, 0);
}

#[test]
fn fatal_failure_makes_the_aggregate_fatal() {
    let mut multi = MultiRouteConnectionManager::new(vec![
        manager(RouteType::Direct),
        manager(RouteType::ProxyF),
        manager(RouteType::ProxyG),
    ]);
    let outcomes = vec![
        RouteAttemptOutcome::Failed(TransportConnectError::TcpConnectionFailed),
        RouteAttemptOutcome::Failed(TransportConnectError::CertificateError),
        RouteAttemptOutcome::Connected(DnsSource::Test, Host::Domain("proxyg.example".to_string())),
    ];
    let err = multi.connect(100, &outcomes).unwrap_err();
    assert_eq!(err.classify(), ErrorClass::Fatal);
    assert_eq!(err.attempts.len(), 2);
    assert_eq!(err.attempts[0].0, RouteType::Direct);
    assert_eq!(err.attempts[1].0, RouteType::ProxyF);
    // The walk stopped at the fatal failure: the third route was not tried.
    assert_eq!(multi.route_managers[2].last_attempt_ms, 0);
}

#[test]
fn exhausted_routes_give_a_retryable_aggregate() {
    let mut multi = MultiRouteConnectionManager::new(vec![
        manager(RouteType::Direct),
        manager(RouteType::ProxyF),
    ]);
    let outcomes = vec![
        RouteAttemptOutcome::Failed(TransportConnectError::TcpConnectionFailed),
        RouteAttemptOutcome::TimedOut,
    ];
    let err = multi.connect(100, &outcomes).unwrap_err();
    assert_eq!(err.classify(), ErrorClass::Retryable);
    assert_eq!(err.attempts.len(), 2);
}

#[test]
fn end_to_end_direct_fails_proxyf_succeeds() {
    let mut multi = MultiRouteConnectionManager::new(vec![
        manager(RouteType::Direct),
        manager(RouteType::ProxyF),
        manager(RouteType::ProxyG),
    ]);
    let outcomes = vec![
        RouteAttemptOutcome::Failed(TransportConnectError::TcpConnectionFailed),
        RouteAttemptOutcome::Connected(DnsSource::Test, Host::Domain("proxyf.example".to_string())),
        RouteAttemptOutcome::Connected(DnsSource::Test, Host::Domain("proxyg.example".to_string())),
    ];
    let (idx, info) = multi.connect(100, &outcomes).unwrap();
    assert_eq!(idx, 1);
    assert_eq!(info.route_type, RouteType::ProxyF);
    assert_eq!(info.address, Host::Domain("proxyf.example".to_string()));
    assert_eq!(multi.route_managers[0].consecutive_fails, 1);
    assert_eq!(multi.route_managers[2].last_attempt_ms, 0);
}

#[test]
fn try_all_routes_reports_every_route() {
    let mut multi = MultiRouteConnectionManager::new(vec![
        manager(RouteType::Direct),
        manager(RouteType::ProxyF),
        manager(RouteType::ProxyG),
    ]);
    let outcomes = vec![
        RouteAttemptOutcome::Connected(DnsSource::Test, Host::Domain("direct.example".to_string())),
        RouteAttemptOutcome::Failed(TransportConnectError::TcpConnectionFailed),
        RouteAttemptOutcome::Connected(DnsSource::Test, Host::Domain("proxyg.example".to_string())),
    ];
    let results = multi.connect_all_routes(100, &outcomes);
    assert_eq!(results.len(), 3);
    assert_eq!(results[0].0, RouteType::Direct);
    assert!(results[0].1.is_ok());
    assert_eq!(results[1].0, RouteType::ProxyF);
    assert!(results[1].1.is_err());
    assert_eq!(results[2].0, RouteType::ProxyG);
    assert!(results[2].1.is_ok());
    // Every route was attempted, despite the earlier success.
    assert_eq!(multi.route_managers[2].last_attempt_ms, 100);
}
