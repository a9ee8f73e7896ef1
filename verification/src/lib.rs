//! A verified core for a light-wallet gateway: transport connectors that
//! rewrite request URIs toward a fixed backend, a passthrough dispatcher that
//! forwards unimplemented RPC methods verbatim, and a lifecycle orchestrator
//! driving startup, bounded health checking and cooperative shutdown.

mod connector;
mod dispatch;
mod endpoint;
mod error;
mod lifecycle;
mod primitives;

pub use connector::ClientSettings;
pub use connector::GrpcConnector;
pub use connector::HttpVersion;
pub use connector::TransportKind;
pub use connector::negotiate;
pub use connector::settings_for;
pub use dispatch::Dispatcher;
pub use dispatch::Route;
pub use dispatch::RpcOutcome;
pub use dispatch::rpc_path;
pub use endpoint::Endpoint;
pub use endpoint::Scheme;
pub use error::ProxyError;
pub use error::SerializationError;
pub use lifecycle::Orchestrator;
pub use lifecycle::ProxyAction;
pub use lifecycle::ProxyConfig;
pub use lifecycle::ProxyEvent;
pub use lifecycle::ProxyState;
pub use lifecycle::close_proxy;
pub use primitives::NymClient;
pub use primitives::OnlineFlag;
pub use primitives::ProxyClient;
