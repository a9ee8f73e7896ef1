//! Shared primitives of the gateway: the process-wide online flag and the
//! configuration bundles handed to the server tasks.

use vstd::prelude::*;
use crate::endpoint::Endpoint;

verus! {

/// The process-wide online flag. Created once per proxy lifetime and shared
/// with every server task and the health-check loop; it has exactly two
/// states, and the single write of `false` is the sole shutdown signal.
#[derive(Clone, Copy, PartialEq, Eq, Structural, Debug)]
pub struct OnlineFlag {
    online: bool,
}

impl OnlineFlag {
    /// Whether the gateway should keep serving.
    pub closed spec fn spec_is_online(self) -> bool {
        self.online
    }

    /// A fresh flag reads online: the proxy serves until told otherwise.
    pub fn new() -> (r: OnlineFlag)
        ensures
            r.spec_is_online(),
    {
        OnlineFlag { online: true }
    }

    pub fn is_online(&self) -> (r: bool)
        ensures
            r == self.spec_is_online(),
    {
        self.online
    }

    /// The one write the design allows: from serving to stopped, never back.
    pub fn set_offline(&mut self)
        ensures
            !final(self).spec_is_online(),
    {
        self.online = false;
    }
}

/// Configuration data for the gateway's server task.
#[derive(Clone, PartialEq, Eq, Debug)]
pub struct ProxyClient {
    /// The fallback wallet-protocol daemon, the target of every call the
    /// passthrough dispatcher forwards.
    pub lightwalletd_uri: Endpoint,
    /// The upstream full node.
    pub zebrad_uri: Endpoint,
    /// The online status of the server.
    pub online: OnlineFlag,
}

impl ProxyClient {
    pub open spec fn wf(self) -> bool {
        self.lightwalletd_uri.wf() && self.zebrad_uri.wf()
    }

    pub fn new(lightwalletd_uri: Endpoint, zebrad_uri: Endpoint, online: OnlineFlag) -> (r:
        ProxyClient)
        requires
            lightwalletd_uri.wf(),
            zebrad_uri.wf(),
        ensures
            r.lightwalletd_uri == lightwalletd_uri,
            r.zebrad_uri == zebrad_uri,
            r.online == online,
            r.wf(),
    {
        ProxyClient { lightwalletd_uri, zebrad_uri, online }
    }
}

/// The overlay-facing client, known to the rest of the gateway by the one
/// thing the logic reads from it: its overlay service address.
#[derive(Clone, PartialEq, Eq, Debug)]
pub struct NymClient(pub String);

impl NymClient {
    /// The overlay address peers dial to reach this client.
    pub fn nym_address(&self) -> (r: &String)
        ensures
            r@ == self.0@,
    {
        &self.0
    }
}

} // verus!
