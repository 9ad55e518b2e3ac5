//! Endpoint composition: a multi-route connection manager paired with the
//! WebSocket configuration the protocol layer needs once a stream is open.

use vstd::prelude::*;

use crate::connection_manager::MultiRouteConnectionManager;
use crate::connection_manager::RetryConfig;
use crate::connection_manager::SingleRouteThrottlingConnectionManager;
use crate::routes::ConnectionParams;

verus! {

/// Interval between keep-alive pings on an established WebSocket, in
/// milliseconds.
pub const WS_KEEP_ALIVE_INTERVAL_MS: u64 = 30_000;

/// An established WebSocket with no traffic for this long is torn down, in
/// milliseconds.
pub const WS_MAX_IDLE_INTERVAL_MS: u64 = 45_000;

#[verifier::external_type_specification]
#[verifier::external_body]
pub struct ExWebSocketProtocolConfig(tungstenite::protocol::WebSocketConfig);

/// Relies on tungstenite's `WebSocketConfig::default`: the protocol-level
/// defaults for a WebSocket session. The value is carried through opaquely.
#[verifier::external_body]
fn default_ws_protocol_config() -> tungstenite::protocol::WebSocketConfig {
    tungstenite::protocol::WebSocketConfig::default()
}

/// Configuration of the WebSocket session built on top of a connected
/// stream.
pub struct WsConfig {
    /// Protocol-level settings, handed through to the WebSocket layer.
    pub ws_config: tungstenite::protocol::WebSocketConfig,
    /// The path-and-query of the endpoint the upgrade request is sent to.
    pub endpoint: Vec<u8>,
    /// Bound on the whole connection establishment, in milliseconds.
    pub max_connection_time_ms: u64,
    /// Interval between keep-alive pings, in milliseconds.
    pub keep_alive_interval_ms: u64,
    /// Idle bound after which the session is torn down, in milliseconds.
    pub max_idle_time_ms: u64,
}

/// A WebSocket configuration for the given endpoint and connect timeout,
/// with protocol defaults and the standard keep-alive and idle intervals.
pub fn make_ws_config(websocket_endpoint: Vec<u8>, connect_timeout_ms: u64) -> (r: WsConfig)
    ensures
        r.endpoint == websocket_endpoint,
        r.max_connection_time_ms == connect_timeout_ms,
        r.keep_alive_interval_ms == WS_KEEP_ALIVE_INTERVAL_MS,
        r.max_idle_time_ms == WS_MAX_IDLE_INTERVAL_MS,
{
    WsConfig {
        ws_config: default_ws_protocol_config(),
        endpoint: websocket_endpoint,
        max_connection_time_ms: connect_timeout_ms,
        keep_alive_interval_ms: WS_KEEP_ALIVE_INTERVAL_MS,
        max_idle_time_ms: WS_MAX_IDLE_INTERVAL_MS,
    }
}

/// A connection manager paired with the WebSocket configuration used on the
/// streams it produces.
pub struct EndpointConnection<C> {
    /// The connection manager driving route selection.
    pub manager: C,
    /// The WebSocket configuration for established streams.
    pub config: WsConfig,
}

impl EndpointConnection<MultiRouteConnectionManager> {
    /// Wrap each route in a fresh single-route throttling manager, in the
    /// given preference order, and compose them into a multi-route manager
    /// sharing one per-attempt timeout and retry policy.
    #[verifier::loop_isolation(false)]
    pub fn new_multi(
        connection_params: Vec<ConnectionParams>,
        one_route_connect_timeout_ms: u64,
        retry: RetryConfig,
        config: WsConfig,
    ) -> (r: EndpointConnection<MultiRouteConnectionManager>)
        requires
            retry.wf(),
            forall|i: int|
                0 <= i < connection_params@.len() ==> (#[trigger] connection_params@[i]).wf(),
        ensures
            r.manager.wf(),
            r.manager.route_managers@.len() == connection_params@.len(),
            forall|i: int|
                0 <= i < connection_params@.len() ==> {
                    let m = #[trigger] r.manager.route_managers@[i];
                    m.connection_params == connection_params@[i] && m.connect_timeout_ms
                        == one_route_connect_timeout_ms && m.retry == retry && m.consecutive_fails
                        == 0 && m.last_attempt_ms == 0 && m.cooldown_until_ms == 0
                },
            r.config == config,
    {
        let ghost orig = connection_params@;
        let mut params = connection_params;
        let mut managers: Vec<SingleRouteThrottlingConnectionManager> = Vec::new();
        proof {
            assert(params@ =~= orig.skip(0));
        }
        while params.len() > 0
            invariant
                managers@.len() + params@.len() == orig.len(),
                params@ == orig.skip(managers@.len() as int),
                forall|i: int|
                    0 <= i < managers@.len() ==> {
                        let m = #[trigger] managers@[i];
                        m.connection_params == orig[i] && m.connect_timeout_ms
                            == one_route_connect_timeout_ms && m.retry == retry
                            && m.consecutive_fails == 0 && m.last_attempt_ms == 0
                            && m.cooldown_until_ms == 0
                    },
            decreases params@.len(),
        {
            let ghost k = managers@.len() as int;
            let p = params.remove(0);
            proof {
                assert(p == orig[k]);
                assert(params@ =~= orig.skip(k + 1));
            }
            managers.push(
                SingleRouteThrottlingConnectionManager::new(p, one_route_connect_timeout_ms, retry),
            );
        }
        EndpointConnection { manager: MultiRouteConnectionManager::new(managers), config }
    }
}

} // verus!
