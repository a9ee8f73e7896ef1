//! The request-rewrite layer: every outgoing URI is rebuilt from the bound
//! endpoint's scheme and authority and the request's own path and query.

use zingo_proxyd::{Endpoint, GrpcConnector, Scheme};

#[test]
fn rewrite_get_info_against_tls_node() {
    let e = Endpoint::new(Scheme::Https, String::from("node.example:9067"));
    let c = GrpcConnector::new(e);
    let rewritten = c.rewrite_request_uri("/wallet.rpc/GetInfo").unwrap();
    assert_eq!(rewritten, "https://node.example:9067/wallet.rpc/GetInfo");
}

#[test]
fn rewrite_preserves_path_and_query_exactly() {
    let e = Endpoint::new(Scheme::Http, String::from("127.0.0.1:8080"));
    let c = GrpcConnector::new(e);
    let rewritten = c
        .rewrite_request_uri("/cash.z.wallet.sdk.rpc.CompactTxStreamer/GetBlockRange?start=1&end=5")
        .unwrap();
    assert_eq!(
        rewritten,
        "http://127.0.0.1:8080/cash.z.wallet.sdk.rpc.CompactTxStreamer/GetBlockRange?start=1&end=5"
    );
}

#[test]
fn rewrite_ignores_whatever_authority_the_stub_used() {
    // A stub only ever hands over its path and query; two connectors bound to
    // different endpoints send the same request to different places.
    let a = GrpcConnector::new(Endpoint::new(Scheme::Http, String::from("localhost:9067")));
    let b = GrpcConnector::new(Endpoint::new(Scheme::Https, String::from("other.example:443")));
    let path = "/wallet.rpc/GetLightdInfo";
    assert_eq!(a.rewrite_request_uri(path).unwrap(), "http://localhost:9067/wallet.rpc/GetLightdInfo");
    assert_eq!(b.rewrite_request_uri(path).unwrap(), "https://other.example:443/wallet.rpc/GetLightdInfo");
}

#[test]
fn rewrite_rejects_parts_the_http_layer_rejects() {
    let bad_authority = Endpoint::new(Scheme::Http, String::from("not an authority"));
    assert!(bad_authority.uri_with_path("/ok").is_none());

    let good = Endpoint::new(Scheme::Http, String::from("localhost:8080"));
    assert!(good.uri_with_path("/with space").is_none());
}

#[test]
fn a_fragment_is_truncated_rather_than_reproduced() {
    // Outside the route shape the http layer normalizes instead of
    // reproducing: a fragment is dropped. The exactness guarantee is
    // confined to fragment-free, slash-leading paths for this reason.
    let e = Endpoint::new(Scheme::Http, String::from("localhost:8080"));
    let rewritten = e.uri_with_path("/a#b").unwrap();
    assert_eq!(rewritten, "http://localhost:8080/a");
}

#[test]
fn rewritten_uri_parses_back_into_the_same_parts() {
    let e = Endpoint::new(Scheme::Https, String::from("node.example:9067"));
    let rewritten = e.uri_with_path("/wallet.rpc/GetInfo?x=1").unwrap();
    let parsed: http::Uri = rewritten.parse().unwrap();
    assert_eq!(parsed.scheme_str(), Some("https"));
    assert_eq!(parsed.authority().unwrap().as_str(), "node.example:9067");
    assert_eq!(parsed.path_and_query().unwrap().as_str(), "/wallet.rpc/GetInfo?x=1");
}

#[test]
fn localhost_endpoints_render_their_port_in_decimal() {
    assert_eq!(Endpoint::localhost(0).authority, "localhost:0");
    assert_eq!(Endpoint::localhost(7).authority, "localhost:7");
    assert_eq!(Endpoint::localhost(9067).authority, "localhost:9067");
    assert_eq!(Endpoint::localhost(65535).authority, "localhost:65535");
    assert_eq!(Endpoint::localhost(8080).scheme, Scheme::Http);
}
