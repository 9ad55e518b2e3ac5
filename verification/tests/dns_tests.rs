use net_infra::DnsError;
use net_infra::DnsResolver;
use net_infra::DnsSource;
use net_infra::ErrorClass;
use net_infra::ErrorClassifier;
use net_infra::Host;
use net_infra::StaticDnsEntry;

fn resolver() -> DnsResolver {
    DnsResolver::new(
        vec![StaticDnsEntry {
            hostname: "backup.example".to_string(),
            addresses: vec![Host::Ipv4([9, 9, 9, 9])],
        }],
        60_000,
    )
}

#[test]
fn second_resolution_is_served_from_cache() {
    let mut r = resolver();
    let host = "chat.example".to_string();
    let (addrs, source) = r
        .resolve(&host, 1_000, Some(vec![Host::Ipv4([1, 1, 1, 1])]), None, None)
        .unwrap();
    assert_eq!(source, DnsSource::UdpLookup);
    assert_eq!(addrs, vec![Host::Ipv4([1, 1, 1, 1])]);

    // Second resolution, no network change in between: a cache hit with the
    // same addresses, even though the live strategies now answer otherwise.
    let (addrs, source) = r
        .resolve(&host, 2_000, Some(vec![Host::Ipv4([2, 2, 2, 2])]), None, None)
        .unwrap();
    assert_eq!(source, DnsSource::Cache);
    assert_eq!(addrs, vec![Host::Ipv4([1, 1, 1, 1])]);
}

#[test]
fn network_change_empties_the_cache() {
    let mut r = resolver();
    let host = "chat.example".to_string();
    r.resolve(&host, 1_000, Some(vec![Host::Ipv4([1, 1, 1, 1])]), None, None)
        .unwrap();
    r.on_network_change();
    assert_eq!(r.cache.len(), 0);

    // The next resolution is not a stale cache hit.
    let (addrs, source) = r
        .resolve(&host, 2_000, Some(vec![Host::Ipv4([2, 2, 2, 2])]), None, None)
        .unwrap();
    assert_eq!(source, DnsSource::UdpLookup);
    assert_eq!(addrs, vec![Host::Ipv4([2, 2, 2, 2])]);
}

#[test]
fn expired_entries_are_not_served() {
    let mut r = resolver();
    let host = "chat.example".to_string();
    r.resolve(&host, 1_000, Some(vec![Host::Ipv4([1, 1, 1, 1])]), None, None)
        .unwrap();
    // Past the TTL the entry has expired; the live lookup answers again.
    let (addrs, source) = r
        .resolve(&host, 61_001, Some(vec![Host::Ipv4([2, 2, 2, 2])]), None, None)
        .unwrap();
    assert_eq!(source, DnsSource::UdpLookup);
    assert_eq!(addrs, vec![Host::Ipv4([2, 2, 2, 2])]);
}

#[test]
fn live_strategies_are_consulted_in_preference_order() {
    let mut r = resolver();
    let host = "chat.example".to_string();
    let (_, source) = r
        .resolve(
            &host,
            1_000,
            None,
            Some(vec![Host::Ipv6([1; 16])]),
            Some(vec![Host::Ipv4([4, 4, 4, 4])]),
        )
        .unwrap();
    assert_eq!(source, DnsSource::DnsOverHttpsLookup);

    let host2 = "other.example".to_string();
    let (_, source) = r
        .resolve(&host2, 1_000, None, None, Some(vec![Host::Ipv4([4, 4, 4, 4])]))
        .unwrap();
    assert_eq!(source, DnsSource::SystemLookup);

    // An empty answer does not win.
    let host3 = "third.example".to_string();
    let (_, source) = r
        .resolve(&host3, 1_000, Some(Vec::new()), None, Some(vec![Host::Ipv4([5, 5, 5, 5])]))
        .unwrap();
    assert_eq!(source, DnsSource::SystemLookup);
}

#[test]
fn static_fallback_answers_when_live_lookups_fail() {
    let mut r = resolver();
    let host = "backup.example".to_string();
    let (addrs, source) = r.resolve(&host, 1_000, None, None, None).unwrap();
    assert_eq!(source, DnsSource::Static);
    assert_eq!(addrs, vec![Host::Ipv4([9, 9, 9, 9])]);
    // Static answers are not cached.
    assert_eq!(r.cache.len(), 0);
}

#[test]
fn failed_resolution_is_retryable_and_uncached() {
    let mut r = resolver();
    let host = "missing.example".to_string();
    let err = r.resolve(&host, 1_000, None, None, None).unwrap_err();
    assert_eq!(err, DnsError);
    assert_eq!(err.classify(), ErrorClass::Retryable);
    assert_eq!(r.cache.len(), 0);
}
