//! Client-side connection establishment for a chat transport: route
//! descriptors, request decoration, throttled per-route retry, multi-route
//! fallback, a supervised reconnect state machine, and a DNS cache with a
//! static fallback table.

mod connection_manager;
mod decorator;
mod dns;
mod endpoint;
mod errors;
mod reconnect;
mod routes;

pub use endpoint::EndpointConnection;
pub use endpoint::WsConfig;
pub use endpoint::make_ws_config;

pub use dns::DnsCacheEntry;
pub use dns::DnsError;
pub use dns::DnsResolver;
pub use dns::StaticDnsEntry;

pub use reconnect::ReconnectService;
pub use reconnect::ServiceAction;
pub use reconnect::ServiceEvent;
pub use reconnect::ServiceState;

pub use connection_manager::cooldown_after;
pub use connection_manager::MultiConnectError;
pub use connection_manager::MultiRouteConnectionManager;
pub use connection_manager::RetryConfig;
pub use connection_manager::RouteAttemptOutcome;
pub use connection_manager::RouteConnectError;
pub use connection_manager::SingleRouteThrottlingConnectionManager;
pub use decorator::HttpRequestDecorator;
pub use decorator::HttpRequestDecoratorSeq;
pub use decorator::HttpRequestParts;
pub use errors::ErrorClass;
pub use errors::ErrorClassifier;
pub use errors::TransportConnectError;
pub use routes::Alpn;
pub use routes::ConnectionInfo;
pub use routes::ConnectionParams;
pub use routes::DnsSource;
pub use routes::Host;
pub use routes::IpType;
pub use routes::RootCertificates;
pub use routes::RouteType;
pub use routes::StreamAndInfo;
