//! Hostname resolution with a cache and a static fallback table.
//!
//! Resolution is layered: an in-process cache (hostname to address set with
//! an expiry) is consulted first; on a miss, the live lookup strategies are
//! consulted in fixed preference order (plaintext UDP, then DNS-over-HTTPS,
//! then the system resolver) and the first non-empty answer wins and
//! populates the cache; when every live strategy fails, a preconfigured
//! static fallback table answers with provenance `Static`. A failed lookup
//! is never cached, and a network-change event empties the cache eagerly.
//!
//! The lookups themselves are network work done by the caller; the resolver
//! here decides, for whatever answers the strategies gave, which one is
//! used, what provenance it carries, and how the cache moves.

use vstd::prelude::*;

use crate::errors::ErrorClass;
use crate::errors::ErrorClassifier;
use crate::connection_manager::sat_add;
use crate::connection_manager::sat_add64;
use crate::routes::DnsSource;
use crate::routes::Host;

verus! {

/// Hostname resolution failed: the cache missed, every live strategy came
/// back empty, and the static table has no entry. Always retryable: DNS
/// failures are transient by default.
#[derive(Copy, Clone, Debug, PartialEq, Eq, Structural)]
pub struct DnsError;

impl ErrorClassifier for DnsError {
    open spec fn spec_classify(&self) -> ErrorClass {
        ErrorClass::Retryable
    }

    fn classify(&self) -> (r: ErrorClass) {
        ErrorClass::Retryable
    }
}

/// One cached resolution: the hostname, its addresses, and when the entry
/// stops being served.
#[derive(Clone, Debug)]
pub struct DnsCacheEntry {
    /// The hostname this entry answers for.
    pub hostname: String,
    /// The addresses the live lookup produced.
    pub addresses: Vec<Host>,
    /// The entry is served only before this time, in milliseconds.
    pub expires_at_ms: u64,
}

/// One static fallback entry: a known hostname and its preconfigured
/// addresses.
#[derive(Clone, Debug)]
pub struct StaticDnsEntry {
    /// The hostname this entry answers for.
    pub hostname: String,
    /// The preconfigured addresses.
    pub addresses: Vec<Host>,
}

/// Whether cache entry `e` answers for hostname `h` at time `now`.
pub open spec fn entry_hits(e: DnsCacheEntry, h: Seq<char>, now_ms: u64) -> bool {
    e.hostname@ == h && now_ms < e.expires_at_ms
}

/// The addresses of the first cache entry answering for `h` at `now`, if
/// any.
pub open spec fn spec_cache_lookup(cache: Seq<DnsCacheEntry>, h: Seq<char>, now_ms: u64) -> Option<
    Seq<Host>,
>
    decreases cache.len(),
{
    if cache.len() == 0 {
        None
    } else if entry_hits(cache[0], h, now_ms) {
        Some(cache[0].addresses@)
    } else {
        spec_cache_lookup(cache.drop_first(), h, now_ms)
    }
}

/// The addresses of the first static entry for `h`, if any.
pub open spec fn spec_static_lookup(table: Seq<StaticDnsEntry>, h: Seq<char>) -> Option<Seq<Host>>
    decreases table.len(),
{
    if table.len() == 0 {
        None
    } else if table[0].hostname@ == h {
        Some(table[0].addresses@)
    } else {
        spec_static_lookup(table.drop_first(), h)
    }
}

/// When no entry among the first `i` answers, the lookup is decided by the
/// rest of the cache.
proof fn lemma_cache_lookup_skip(cache: Seq<DnsCacheEntry>, h: Seq<char>, now_ms: u64, i: int)
    requires
        0 <= i <= cache.len(),
        forall|j: int| 0 <= j < i ==> !entry_hits(#[trigger] cache[j], h, now_ms),
    ensures
        spec_cache_lookup(cache, h, now_ms) == spec_cache_lookup(cache.skip(i), h, now_ms),
    decreases i,
{
    if i == 0 {
        assert(cache.skip(0) =~= cache);
    } else {
        lemma_cache_lookup_skip(cache, h, now_ms, i - 1);
        assert(cache.skip(i - 1)[0] == cache[i - 1]);
        assert(cache.skip(i - 1).drop_first() =~= cache.skip(i));
    }
}

/// When no entry among the first `i` matches, the static lookup is decided
/// by the rest of the table.
proof fn lemma_static_lookup_skip(table: Seq<StaticDnsEntry>, h: Seq<char>, i: int)
    requires
        0 <= i <= table.len(),
        forall|j: int| 0 <= j < i ==> (#[trigger] table[j].hostname@) != h,
    ensures
        spec_static_lookup(table, h) == spec_static_lookup(table.skip(i), h),
    decreases i,
{
    if i == 0 {
        assert(table.skip(0) =~= table);
    } else {
        lemma_static_lookup_skip(table, h, i - 1);
        assert(table.skip(i - 1)[0] == table[i - 1]);
        assert(table.skip(i - 1).drop_first() =~= table.skip(i));
    }
}

/// Whether a live strategy came back with at least one address.
pub open spec fn spec_nonempty(answer: Option<Vec<Host>>) -> bool {
    match answer {
        Some(v) => v@.len() > 0,
        None => false,
    }
}

/// The first non-empty live answer, in fixed preference order: UDP, then
/// DNS-over-HTTPS, then the system resolver.
pub open spec fn spec_live_pick(
    udp: Option<Vec<Host>>,
    doh: Option<Vec<Host>>,
    system: Option<Vec<Host>>,
) -> Option<(Vec<Host>, DnsSource)> {
    if spec_nonempty(udp) {
        Some((udp.unwrap(), DnsSource::UdpLookup))
    } else if spec_nonempty(doh) {
        Some((doh.unwrap(), DnsSource::DnsOverHttpsLookup))
    } else if spec_nonempty(system) {
        Some((system.unwrap(), DnsSource::SystemLookup))
    } else {
        None
    }
}

/// Pick the first non-empty live answer.
fn live_pick(udp: Option<Vec<Host>>, doh: Option<Vec<Host>>, system: Option<Vec<Host>>) -> (r:
    Option<(Vec<Host>, DnsSource)>)
    ensures
        r == spec_live_pick(udp, doh, system),
{
    match udp {
        Some(v) => if v.len() > 0 {
            return Some((v, DnsSource::UdpLookup));
        },
        None => {},
    }
    match doh {
        Some(v) => if v.len() > 0 {
            return Some((v, DnsSource::DnsOverHttpsLookup));
        },
        None => {},
    }
    match system {
        Some(v) => if v.len() > 0 {
            return Some((v, DnsSource::SystemLookup));
        },
        None => {},
    }
    None
}

/// A fresh copy of an address list.
fn copy_hosts(v: &Vec<Host>) -> (r: Vec<Host>)
    ensures
        r@ == v@,
{
    let mut r: Vec<Host> = Vec::new();
    let mut i: usize = 0;
    while i < v.len()
        invariant
            i <= v@.len(),
            r@ == v@.subrange(0, i as int),
        decreases v@.len() - i,
    {
        r.push(v[i].duplicate());
        i = i + 1;
        proof {
            assert(r@ =~= v@.subrange(0, i as int));
        }
    }
    proof {
        assert(r@ =~= v@);
    }
    r
}

/// Resolves hostnames through the cache, the live strategies and the static
/// fallback table.
#[derive(Clone, Debug)]
pub struct DnsResolver {
    /// The in-process cache; emptied eagerly on a network-change event.
    pub cache: Vec<DnsCacheEntry>,
    /// Preconfigured address sets for known hosts.
    pub static_fallback: Vec<StaticDnsEntry>,
    /// How long a cached entry is served, in milliseconds.
    pub cache_ttl_ms: u64,
}

impl DnsResolver {
    /// A resolver with an empty cache and the given static fallback table.
    pub fn new(static_fallback: Vec<StaticDnsEntry>, cache_ttl_ms: u64) -> (r: DnsResolver)
        ensures
            r.cache@.len() == 0,
            r.static_fallback == static_fallback,
            r.cache_ttl_ms == cache_ttl_ms,
    {
        DnsResolver { cache: Vec::new(), static_fallback, cache_ttl_ms }
    }

    /// Resolve `hostname` at time `now`, where `udp`, `doh` and `system` are
    /// the answers the live strategies give if consulted (`None` for a
    /// failed lookup). A cache hit is served with provenance `Cache` and
    /// leaves the resolver unchanged. On a miss, the first non-empty live
    /// answer wins, is cached until `now` plus the TTL, and is returned with
    /// its provenance. When every live strategy fails, the static table
    /// answers with provenance `Static`, uncached; and when it has no entry
    /// either, the resolution fails with a retryable error, caching nothing.
    #[verifier::loop_isolation(false)]
    pub fn resolve(
        &mut self,
        hostname: &String,
        now_ms: u64,
        udp: Option<Vec<Host>>,
        doh: Option<Vec<Host>>,
        system: Option<Vec<Host>>,
    ) -> (r: Result<(Vec<Host>, DnsSource), DnsError>)
        ensures
            final(self).static_fallback == old(self).static_fallback,
            final(self).cache_ttl_ms == old(self).cache_ttl_ms,
            match spec_cache_lookup(old(self).cache@, hostname@, now_ms) {
                Some(addrs) => final(self).cache == old(self).cache && (r matches Ok(p) && p.0@
                    == addrs && p.1 == DnsSource::Cache),
                None => match spec_live_pick(udp, doh, system) {
                    Some(picked) => r == Ok::<_, DnsError>(picked)
                        && final(self).cache@.len() == old(self).cache@.len() + 1
                        && final(self).cache@ == old(self).cache@.push(final(self).cache@.last())
                        && final(self).cache@.last().hostname@ == hostname@
                        && final(self).cache@.last().addresses@ == picked.0@
                        && final(self).cache@.last().expires_at_ms == sat_add64(now_ms, old(self).cache_ttl_ms),
                    None => final(self).cache == old(self).cache && match spec_static_lookup(
                        old(self).static_fallback@,
                        hostname@,
                    ) {
                        Some(addrs) => r matches Ok(p) && p.0@ == addrs && p.1
                            == DnsSource::Static,
                        None => r == Err::<(Vec<Host>, DnsSource), DnsError>(DnsError),
                    },
                },
            },
    {
        let n = self.cache.len();
        let mut i: usize = 0;
        while i < n
            invariant
                i <= n,
                n == self.cache@.len(),
                forall|j: int| 0 <= j < i ==> !entry_hits(#[trigger] self.cache@[j], hostname@, now_ms),
            decreases n - i,
        {
            let hit = self.cache[i].hostname == *hostname && now_ms < self.cache[i].expires_at_ms;
            if hit {
                proof {
                    lemma_cache_lookup_skip(self.cache@, hostname@, now_ms, i as int);
                    assert(self.cache@.skip(i as int)[0] == self.cache@[i as int]);
                }
                let addrs = copy_hosts(&self.cache[i].addresses);
                return Ok((addrs, DnsSource::Cache));
            }
            i = i + 1;
        }
        proof {
            lemma_cache_lookup_skip(self.cache@, hostname@, now_ms, n as int);
            assert(self.cache@.skip(n as int) =~= Seq::<DnsCacheEntry>::empty());
        }
        match live_pick(udp, doh, system) {
            Some((addrs, source)) => {
                let entry = DnsCacheEntry {
                    hostname: hostname.clone(),
                    addresses: copy_hosts(&addrs),
                    expires_at_ms: sat_add(now_ms, self.cache_ttl_ms),
                };
                self.cache.push(entry);
                Ok((addrs, source))
            },
            None => {
                let t = self.static_fallback.len();
                let mut k: usize = 0;
                while k < t
                    invariant
                        k <= t,
                        t == self.static_fallback@.len(),
                        forall|j: int|
                            0 <= j < k ==> (#[trigger] self.static_fallback@[j].hostname@)
                                != hostname@,
                    decreases t - k,
                {
                    if self.static_fallback[k].hostname == *hostname {
                        proof {
                            lemma_static_lookup_skip(self.static_fallback@, hostname@, k as int);
                            assert(self.static_fallback@.skip(k as int)[0]
                                == self.static_fallback@[k as int]);
                        }
                        let addrs = copy_hosts(&self.static_fallback[k].addresses);
                        return Ok((addrs, DnsSource::Static));
                    }
                    k = k + 1;
                }
                proof {
                    lemma_static_lookup_skip(self.static_fallback@, hostname@, t as int);
                    assert(self.static_fallback@.skip(t as int) =~= Seq::<StaticDnsEntry>::empty());
                }
                Err(DnsError)
            },
        }
    }

    /// A network-change event invalidates the entire cache eagerly:
    /// addresses may no longer be valid once connectivity characteristics
    /// change.
    pub fn on_network_change(&mut self)
        ensures
            final(self).cache@.len() == 0,
            final(self).static_fallback == old(self).static_fallback,
            final(self).cache_ttl_ms == old(self).cache_ttl_ms,
    {
        self.cache.clear();
    }
}

/// A cache miss stays a miss at any later time: entries only expire.
proof fn lemma_cache_miss_monotone(cache: Seq<DnsCacheEntry>, h: Seq<char>, now_ms: u64, later_ms: u64)
    requires
        spec_cache_lookup(cache, h, now_ms) is None,
        now_ms <= later_ms,
    ensures
        spec_cache_lookup(cache, h, later_ms) is None,
    decreases cache.len(),
{
    if cache.len() > 0 {
        lemma_cache_miss_monotone(cache.drop_first(), h, now_ms, later_ms);
    }
}

/// Resolving the same hostname twice without an intervening network-change
/// event: a live resolution at time `now` that put `e` at the end of the
/// cache is followed, at any time from `now` until `e` expires, by a cache
/// hit returning exactly the cached addresses (the second call's provenance
/// is `Cache`).
pub proof fn lemma_second_resolution_hits_cache(
    cache: Seq<DnsCacheEntry>,
    e: DnsCacheEntry,
    h: Seq<char>,
    now_ms: u64,
    later_ms: u64,
)
    requires
        spec_cache_lookup(cache, h, now_ms) is None,
        e.hostname@ == h,
        now_ms <= later_ms < e.expires_at_ms,
    ensures
        spec_cache_lookup(cache.push(e), h, later_ms) == Some(e.addresses@),
    decreases cache.len(),
{
    lemma_cache_miss_monotone(cache, h, now_ms, later_ms);
    if cache.len() == 0 {
        assert(cache.push(e)[0] == e);
    } else {
        lemma_second_resolution_hits_cache(cache.drop_first(), e, h, now_ms, later_ms);
        assert(cache.push(e).drop_first() =~= cache.drop_first().push(e));
    }
}

/// After a network-change event the cache is empty, so the next resolution
/// cannot be served from a stale cache entry: an empty cache hits nothing.
pub proof fn lemma_no_stale_hit_after_network_change(h: Seq<char>, now_ms: u64)
    ensures
        spec_cache_lookup(Seq::<DnsCacheEntry>::empty(), h, now_ms) is None,
{
}

} // verus!
