//! Route descriptors and connection metadata.
//!
//! A route descriptor ([`ConnectionParams`]) is an immutable value describing
//! one way to reach the remote service: the host pair used for DNS and TLS,
//! the port, the trust anchors, a route classification and an ordered
//! sequence of request decorators. A successful connection produces a
//! [`ConnectionInfo`] recording which route type was used, where the DNS data
//! came from, and the concrete address the stream was opened to.

use vstd::prelude::*;
use vstd::string::StringExecFns;

use crate::decorator::HttpRequestDecorator;
use crate::decorator::HttpRequestDecoratorSeq;

verus! {

/// A network address as produced by resolution: a domain name that was never
/// resolved, or a concrete IPv4/IPv6 address given by its octets.
#[derive(Clone, Debug, PartialEq, Eq)]
pub enum Host {
    /// An unresolved domain name.
    Domain(String),
    /// An IPv4 address, as four octets.
    Ipv4([u8; 4]),
    /// An IPv6 address, as sixteen octets.
    Ipv6([u8; 16]),
}

impl Host {
    /// A fresh copy of this host value.
    pub fn duplicate(&self) -> (r: Host)
        ensures
            r == *self,
    {
        match self {
            Host::Domain(s) => Host::Domain(s.clone()),
            Host::Ipv4(a) => Host::Ipv4(*a),
            Host::Ipv6(a) => Host::Ipv6(*a),
        }
    }
}

/// IP-family classification of a [`Host`], computed on demand.
#[derive(Copy, Clone, Debug, PartialEq, Eq, Structural)]
pub enum IpType {
    Unknown,
    V4,
    V6,
}

impl IpType {
    /// The family of `host`: domains are `Unknown` until resolved.
    pub open spec fn spec_from_host(host: Host) -> IpType {
        match host {
            Host::Domain(_) => IpType::Unknown,
            Host::Ipv4(_) => IpType::V4,
            Host::Ipv6(_) => IpType::V6,
        }
    }

    /// Classify `host` by address family.
    pub fn from_host(host: &Host) -> (r: IpType)
        ensures
            r == IpType::spec_from_host(*host),
    {
        match host {
            Host::Domain(_) => IpType::Unknown,
            Host::Ipv4(_) => IpType::V4,
            Host::Ipv6(_) => IpType::V6,
        }
    }

    /// The name used for this family in connection descriptions.
    pub open spec fn spec_name(self) -> Seq<char> {
        match self {
            IpType::Unknown => "Unknown"@,
            IpType::V4 => "V4"@,
            IpType::V6 => "V6"@,
        }
    }

    /// The name used for this family in connection descriptions.
    pub fn name(&self) -> (r: &'static str)
        ensures
            r@ == self.spec_name(),
    {
        match self {
            IpType::Unknown => "Unknown",
            IpType::V4 => "V4",
            IpType::V6 => "V6",
        }
    }
}

/// Source for the result of a hostname lookup.
#[derive(Copy, Clone, Debug, PartialEq, Eq, Structural)]
pub enum DnsSource {
    /// The result was returned from the cache.
    Cache,
    /// The result came from a plaintext DNS query over UDP.
    UdpLookup,
    /// The result came from a DNS-over-HTTPS query.
    DnsOverHttpsLookup,
    /// The result came from a DNS query using a system resolver.
    SystemLookup,
    /// The result was resolved from a preconfigured static entry.
    Static,
    /// Test-only value.
    Test,
}

impl DnsSource {
    /// The lowercase name used for this source in connection descriptions.
    pub open spec fn spec_name(self) -> Seq<char> {
        match self {
            DnsSource::Cache => "cache"@,
            DnsSource::UdpLookup => "udplookup"@,
            DnsSource::DnsOverHttpsLookup => "dnsoverhttpslookup"@,
            DnsSource::SystemLookup => "systemlookup"@,
            DnsSource::Static => "static"@,
            DnsSource::Test => "test"@,
        }
    }

    /// The lowercase name used for this source in connection descriptions.
    pub fn name(&self) -> (r: &'static str)
        ensures
            r@ == self.spec_name(),
    {
        match self {
            DnsSource::Cache => "cache",
            DnsSource::UdpLookup => "udplookup",
            DnsSource::DnsOverHttpsLookup => "dnsoverhttpslookup",
            DnsSource::SystemLookup => "systemlookup",
            DnsSource::Static => "static",
            DnsSource::Test => "test",
        }
    }
}

/// Type of the route used for a connection.
#[derive(Copy, Clone, Debug, PartialEq, Eq, Structural)]
pub enum RouteType {
    /// Direct connection to the service.
    Direct,
    /// Connection over the first proxy kind.
    ProxyF,
    /// Connection over the second proxy kind.
    ProxyG,
    /// Connection over a custom TLS proxy.
    TlsProxy,
    /// Test-only value.
    Test,
}

impl RouteType {
    /// The lowercase name used for this route type in connection descriptions.
    pub open spec fn spec_name(self) -> Seq<char> {
        match self {
            RouteType::Direct => "direct"@,
            RouteType::ProxyF => "proxyf"@,
            RouteType::ProxyG => "proxyg"@,
            RouteType::TlsProxy => "tlsproxy"@,
            RouteType::Test => "test"@,
        }
    }

    /// The lowercase name used for this route type in connection descriptions.
    pub fn name(&self) -> (r: &'static str)
        ensures
            r@ == self.spec_name(),
    {
        match self {
            RouteType::Direct => "direct",
            RouteType::ProxyF => "proxyf",
            RouteType::ProxyG => "proxyg",
            RouteType::TlsProxy => "tlsproxy",
            RouteType::Test => "test",
        }
    }
}

/// Trust anchors used to validate the TLS certificate presented by a route.
#[derive(Clone, Debug)]
pub enum RootCertificates {
    /// Use the platform's native trust store.
    Native,
    /// Trust exactly the certificates in the given DER documents.
    FromDer(Vec<Vec<u8>>),
}

/// Produced per successful connection: which route type was used, where the
/// DNS data came from, and the address the connection was established to.
#[derive(Clone, Debug, PartialEq, Eq)]
pub struct ConnectionInfo {
    /// Type of the connection, e.g. direct or via proxy.
    pub route_type: RouteType,
    /// The source of the DNS data, e.g. lookup or static fallback.
    pub dns_source: DnsSource,
    /// Address that was used to establish the connection.
    pub address: Host,
}

impl ConnectionInfo {
    /// The exact text [`ConnectionInfo::description`] returns.
    pub open spec fn spec_description(self) -> Seq<char> {
        "route="@ + self.route_type.spec_name() + ";dns_source="@ + self.dns_source.spec_name()
            + ";ip_type="@ + IpType::spec_from_host(self.address).spec_name()
    }

    /// A compact, log-safe summary of how the connection was made.
    pub fn description(&self) -> (r: String)
        ensures
            r@ == self.spec_description(),
    {
        let mut s = String::from_str("route=");
        s.append(self.route_type.name());
        s.append(";dns_source=");
        s.append(self.dns_source.name());
        s.append(";ip_type=");
        s.append(IpType::from_host(&self.address).name());
        proof {
            assert(s@ =~= self.spec_description());
        }
        s
    }
}

/// A single ALPN list entry, identifying the application protocol requested
/// during the TLS handshake.
#[derive(Copy, Clone, Debug, PartialEq, Eq, Structural)]
pub enum Alpn {
    Http1_1,
    Http2,
}

impl Alpn {
    /// The length-delimited wire form of this ALPN entry: one length byte
    /// followed by the protocol identifier's ASCII bytes.
    pub open spec fn spec_wire_token(self) -> Seq<u8> {
        match self {
            // "\x08http/1.1"
            Alpn::Http1_1 => seq![8u8, 104u8, 116u8, 116u8, 112u8, 47u8, 49u8, 46u8, 49u8],
            // "\x02h2"
            Alpn::Http2 => seq![2u8, 104u8, 50u8],
        }
    }

    /// Encode this entry in its length-delimited wire form.
    pub fn wire_token(&self) -> (r: Vec<u8>)
        ensures
            r@ == self.spec_wire_token(),
            r@.len() > 0,
            r@[0] == r@.len() - 1,
    {
        let mut v: Vec<u8> = Vec::new();
        match self {
            Alpn::Http1_1 => {
                v.push(8u8);
                v.push(104u8);
                v.push(116u8);
                v.push(116u8);
                v.push(112u8);
                v.push(47u8);
                v.push(49u8);
                v.push(46u8);
                v.push(49u8);
            },
            Alpn::Http2 => {
                v.push(2u8);
                v.push(104u8);
                v.push(50u8);
            },
        }
        proof {
            assert(v@ =~= self.spec_wire_token());
        }
        v
    }
}

/// Contains all information required to establish a connection to a remote
/// endpoint over one route. Immutable once built; the builder-style methods
/// return a new value.
#[derive(Clone, Debug)]
pub struct ConnectionParams {
    /// High-level classification of the route.
    pub route_type: RouteType,
    /// Host name to be used in the TLS handshake.
    pub sni: String,
    /// Host name used for DNS resolution and in the HTTP request headers.
    pub host: String,
    /// Port to connect to; never zero.
    pub port: u16,
    /// Applied to the initial HTTP request sent over a fresh stream.
    pub http_request_decorator: HttpRequestDecoratorSeq,
    /// Trusted certificates for this connection.
    pub certs: RootCertificates,
    /// If present, the name of a response header whose presence distinguishes
    /// replies from the remote endpoint from those of an intermediary.
    pub connection_confirmation_header: Option<Vec<u8>>,
}

impl ConnectionParams {
    /// A route descriptor is well formed when its port is nonzero.
    pub open spec fn wf(self) -> bool {
        self.port != 0
    }

    /// Build a route descriptor with no confirmation header.
    pub fn new(
        route_type: RouteType,
        sni: &str,
        host: &str,
        port: u16,
        http_request_decorator: HttpRequestDecoratorSeq,
        certs: RootCertificates,
    ) -> (r: ConnectionParams)
        requires
            port != 0,
        ensures
            r.wf(),
            r.route_type == route_type,
            r.sni@ == sni@,
            r.host@ == host@,
            r.port == port,
            r.http_request_decorator == http_request_decorator,
            r.certs == certs,
            r.connection_confirmation_header is None,
    {
        ConnectionParams {
            route_type,
            sni: String::from_str(sni),
            host: String::from_str(host),
            port,
            http_request_decorator,
            certs,
            connection_confirmation_header: None,
        }
    }

    /// The same route with one more decorator appended.
    pub fn with_decorator(self, decorator: HttpRequestDecorator) -> (r: ConnectionParams)
        ensures
            r.http_request_decorator.0@ == self.http_request_decorator.0@.push(decorator),
            r.route_type == self.route_type,
            r.sni == self.sni,
            r.host == self.host,
            r.port == self.port,
            r.certs == self.certs,
            r.connection_confirmation_header == self.connection_confirmation_header,
    {
        let ConnectionParams {
            route_type,
            sni,
            host,
            port,
            http_request_decorator,
            certs,
            connection_confirmation_header,
        } = self;
        let HttpRequestDecoratorSeq(mut decorators) = http_request_decorator;
        decorators.push(decorator);
        ConnectionParams {
            route_type,
            sni,
            host,
            port,
            http_request_decorator: HttpRequestDecoratorSeq(decorators),
            certs,
            connection_confirmation_header,
        }
    }

    /// The same route with its trust anchors replaced.
    pub fn with_certs(self, certs: RootCertificates) -> (r: ConnectionParams)
        ensures
            r.certs == certs,
            r.route_type == self.route_type,
            r.sni == self.sni,
            r.host == self.host,
            r.port == self.port,
            r.http_request_decorator == self.http_request_decorator,
            r.connection_confirmation_header == self.connection_confirmation_header,
    {
        ConnectionParams { certs, ..self }
    }

    /// The same route with a connection-confirmation header set.
    pub fn with_confirmation_header(self, header: Vec<u8>) -> (r: ConnectionParams)
        ensures
            r.connection_confirmation_header == Some(header),
            r.route_type == self.route_type,
            r.sni == self.sni,
            r.host == self.host,
            r.port == self.port,
            r.http_request_decorator == self.http_request_decorator,
            r.certs == self.certs,
    {
        ConnectionParams { connection_confirmation_header: Some(header), ..self }
    }
}

/// An open byte stream paired with the record of how it was established.
pub struct StreamAndInfo<T>(pub T, pub ConnectionInfo);

} // verus!
