//! The transport connector: binds a protocol stub to a concrete backend by
//! choosing a transport layer and rewriting every outgoing request URI toward
//! the bound endpoint.

use vstd::prelude::*;
use crate::endpoint::{Endpoint, Scheme, uri_parts_ok, route_shape};

verus! {

/// The network/security layer a connector reaches its endpoint through.
#[derive(Clone, Copy, PartialEq, Eq, Structural, Debug)]
pub enum TransportKind {
    /// Plaintext HTTP/2. Negotiation is pinned to HTTP/2: the backend
    /// protocol requires HTTP/2 framing and must not silently downgrade.
    Plain,
    /// TLS-secured HTTP/2 using the default trust anchors and no client
    /// certificate.
    Tls,
    /// An anonymizing mixnet ingress in front of a plaintext connector.
    Overlay,
}

/// The transport-level configuration a connector hands to the HTTP client it
/// builds. Immutable once built.
#[derive(Clone, Copy, PartialEq, Eq, Structural, Debug)]
pub struct ClientSettings {
    /// The client refuses to speak anything but HTTP/2. Set on plaintext
    /// connectors, where no ALPN step exists to pick the version.
    pub http2_only: bool,
    /// The connection is wrapped in TLS.
    pub use_tls: bool,
    /// The TLS root store is built from the default trust anchors.
    pub trust_default_roots: bool,
    /// A client certificate is offered during the TLS handshake. Never set:
    /// the gateway authenticates to no backend.
    pub client_auth: bool,
    /// HTTP/2 is enabled (for TLS connectors, offered during ALPN).
    pub enable_http2: bool,
}

/// The transport configuration for each transport kind, exactly as the
/// connector builds its client.
pub open spec fn spec_settings_for(kind: TransportKind) -> ClientSettings {
    match kind {
        TransportKind::Plain => ClientSettings {
            http2_only: true,
            use_tls: false,
            trust_default_roots: false,
            client_auth: false,
            enable_http2: true,
        },
        TransportKind::Tls => ClientSettings {
            http2_only: false,
            use_tls: true,
            trust_default_roots: true,
            client_auth: false,
            enable_http2: true,
        },
        TransportKind::Overlay => ClientSettings {
            http2_only: true,
            use_tls: false,
            trust_default_roots: false,
            client_auth: false,
            enable_http2: true,
        },
    }
}

/// Executable counterpart of [`spec_settings_for`].
pub fn settings_for(kind: TransportKind) -> (r: ClientSettings)
    ensures
        r == spec_settings_for(kind),
{
    match kind {
        TransportKind::Plain => ClientSettings {
            http2_only: true,
            use_tls: false,
            trust_default_roots: false,
            client_auth: false,
            enable_http2: true,
        },
        TransportKind::Tls => ClientSettings {
            http2_only: false,
            use_tls: true,
            trust_default_roots: true,
            client_auth: false,
            enable_http2: true,
        },
        TransportKind::Overlay => ClientSettings {
            http2_only: true,
            use_tls: false,
            trust_default_roots: false,
            client_auth: false,
            enable_http2: true,
        },
    }
}

/// An HTTP protocol version a connection may settle on.
#[derive(Clone, Copy, PartialEq, Eq, Structural, Debug)]
pub enum HttpVersion {
    Http1,
    Http2,
}

/// The version a connection under the given settings settles on against a
/// server that does or does not offer HTTP/2: HTTP/2 whenever offered; with a
/// client pinned to HTTP/2, no connection at all otherwise; a downgrade to
/// HTTP/1.1 only where the client allows it.
pub open spec fn spec_negotiate(settings: ClientSettings, server_offers_h2: bool) -> Option<
    HttpVersion,
> {
    if server_offers_h2 {
        Some(HttpVersion::Http2)
    } else if settings.http2_only {
        None
    } else {
        Some(HttpVersion::Http1)
    }
}

/// Executable counterpart of [`spec_negotiate`].
pub fn negotiate(settings: ClientSettings, server_offers_h2: bool) -> (r: Option<HttpVersion>)
    ensures
        r == spec_negotiate(settings, server_offers_h2),
{
    if server_offers_h2 {
        Some(HttpVersion::Http2)
    } else if settings.http2_only {
        None
    } else {
        Some(HttpVersion::Http1)
    }
}

/// A plaintext connector always negotiates HTTP/2 and never silently falls
/// back to HTTP/1.1: whatever the server offers, the settled version is
/// either HTTP/2 or nothing.
pub proof fn lemma_plain_never_http1(server_offers_h2: bool)
    ensures
        spec_negotiate(spec_settings_for(TransportKind::Plain), server_offers_h2) != Some(
            HttpVersion::Http1,
        ),
        server_offers_h2 ==> spec_negotiate(
            spec_settings_for(TransportKind::Plain),
            server_offers_h2,
        ) == Some(HttpVersion::Http2),
{
}

/// Builds protocol clients bound to one endpoint: every request sent through
/// a client built here is routed to that endpoint, whatever authority the
/// protocol stub wrote into the request.
#[derive(Clone, PartialEq, Eq, Debug)]
pub struct GrpcConnector {
    uri: Endpoint,
}

impl GrpcConnector {
    /// The endpoint this connector is bound to.
    pub closed spec fn spec_uri(self) -> Endpoint {
        self.uri
    }

    pub open spec fn wf(self) -> bool {
        self.spec_uri().wf()
    }

    pub fn new(uri: Endpoint) -> (r: GrpcConnector)
        requires
            uri.wf(),
        ensures
            r.spec_uri() == uri,
            r.wf(),
    {
        GrpcConnector { uri }
    }

    pub fn uri(&self) -> (r: &Endpoint)
        ensures
            r == self.spec_uri(),
    {
        &self.uri
    }

    /// The transport the connector reaches its endpoint through, decided by
    /// the endpoint's scheme alone.
    pub open spec fn spec_transport(self) -> TransportKind {
        match self.spec_uri().scheme {
            Scheme::Https => TransportKind::Tls,
            Scheme::Http => TransportKind::Plain,
        }
    }

    /// Executable counterpart of [`GrpcConnector::spec_transport`].
    pub fn transport(&self) -> (r: TransportKind)
        ensures
            r == self.spec_transport(),
    {
        match self.uri.scheme {
            Scheme::Https => TransportKind::Tls,
            Scheme::Http => TransportKind::Plain,
        }
    }

    /// The transport settings for the client this connector builds.
    pub fn client_settings(&self) -> (r: ClientSettings)
        ensures
            r == spec_settings_for(self.spec_transport()),
    {
        settings_for(self.transport())
    }

    /// The request-rewrite layer: reconstructs an outgoing request's URI as
    /// `scheme(endpoint) + authority(endpoint) + path_and_query(request)`,
    /// preserving the path and query exactly and substituting only scheme
    /// and authority. Returns `None` exactly when the parts do not form a
    /// URI the HTTP layer accepts.
    pub fn rewrite_request_uri(&self, paq: &str) -> (r: Option<String>)
        ensures
            r is Some <==> uri_parts_ok(
                self.spec_uri().scheme.spec_str(),
                self.spec_uri().authority@,
                paq@,
            ),
            route_shape(paq@) ==> (r matches Some(s) ==> s@ == self.spec_uri().spec_uri(paq@)),
    {
        self.uri.uri_with_path(paq)
    }
}

/// Every successful rewrite against an endpoint yields exactly
/// `scheme(E) + "://" + authority(E) + P`, whatever authority or scheme the
/// stub had put into the request: the rewrite depends only on the endpoint
/// and the request's own path and query.
pub proof fn lemma_rewrite_exact(e: Endpoint, paq: Seq<char>, rewritten: Seq<char>)
    requires
        route_shape(paq),
        rewritten == e.spec_uri(paq),
    ensures
        rewritten == e.scheme.spec_str() + "://"@ + e.authority@ + paq,
{
}

} // verus!
