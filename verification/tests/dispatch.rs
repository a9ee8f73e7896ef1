//! The passthrough dispatcher: routing, table discipline, and verbatim relay.

use zingo_proxyd::{Dispatcher, Endpoint, Route, RpcOutcome, Scheme, TransportKind};
use zingo_proxyd::rpc_path;

fn fallback() -> Endpoint {
    Endpoint::new(Scheme::Http, String::from("localhost:9067"))
}

#[test]
fn builds_only_from_disjoint_tables() {
    let forwarded = vec![String::from("GetLightdInfo"), String::from("GetBlock")];
    let native = vec![String::from("GetLatestBlock")];
    assert!(Dispatcher::new(fallback(), forwarded, native).is_some());

    let forwarded = vec![String::from("GetLightdInfo"), String::from("GetBlock")];
    let native = vec![String::from("GetBlock")];
    assert!(Dispatcher::new(fallback(), forwarded, native).is_none());
}

#[test]
fn routes_each_method_to_exactly_one_handler() {
    let d = Dispatcher::new(
        fallback(),
        vec![String::from("GetLightdInfo"), String::from("SendTransaction")],
        vec![String::from("GetLatestBlock")],
    )
    .unwrap();
    assert_eq!(d.route(&String::from("GetLightdInfo")), Route::Forward);
    assert_eq!(d.route(&String::from("SendTransaction")), Route::Forward);
    assert_eq!(d.route(&String::from("GetLatestBlock")), Route::Native);
    assert_eq!(d.route(&String::from("GetTreeState")), Route::Unknown);
}

#[test]
fn forwarding_uses_a_connector_bound_to_the_fallback() {
    let d = Dispatcher::new(fallback(), vec![String::from("GetLightdInfo")], vec![]).unwrap();
    let c = d.fallback_connector();
    assert_eq!(c.uri(), &fallback());
    assert_eq!(c.transport(), TransportKind::Plain);
}

#[test]
fn relay_returns_the_success_payload_verbatim() {
    let d = Dispatcher::new(fallback(), vec![String::from("GetLightdInfo")], vec![]).unwrap();
    let payload = RpcOutcome::Response(vec![0x0a, 0x03, 0x7a, 0x65, 0x63]);
    assert_eq!(d.relay(payload.clone()), payload);
}

#[test]
fn relay_returns_a_not_found_status_unchanged() {
    // gRPC status code 5 is NOT_FOUND; a fallback answering with it must be
    // heard through the gateway exactly as it spoke.
    let d = Dispatcher::new(fallback(), vec![String::from("GetAddressUtxos")], vec![]).unwrap();
    let status = RpcOutcome::Status(5, String::from("transaction not found"));
    assert_eq!(d.relay(status.clone()), status);
}

#[test]
fn forwarded_calls_travel_to_the_fallback_on_the_same_path() {
    let d = Dispatcher::new(fallback(), vec![String::from("GetLightdInfo")], vec![]).unwrap();
    let uri = d
        .forward_uri("cash.z.wallet.sdk.rpc.CompactTxStreamer", "GetLightdInfo")
        .unwrap();
    assert_eq!(
        uri,
        "http://localhost:9067/cash.z.wallet.sdk.rpc.CompactTxStreamer/GetLightdInfo"
    );
}

#[test]
fn rpc_paths_join_service_and_method() {
    assert_eq!(
        rpc_path("cash.z.wallet.sdk.rpc.CompactTxStreamer", "GetLightdInfo"),
        "/cash.z.wallet.sdk.rpc.CompactTxStreamer/GetLightdInfo"
    );
    assert_eq!(rpc_path("a", "b"), "/a/b");
}
