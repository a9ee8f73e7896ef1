//! The passthrough dispatcher: every RPC method the gateway does not serve
//! natively is forwarded to the fallback daemon unchanged, and the fallback's
//! outcome is returned to the caller verbatim.

use vstd::prelude::*;
use vstd::string::StringExecFns;
use crate::connector::GrpcConnector;
use crate::endpoint::{Endpoint, route_shape, uri_parts_ok};

verus! {

/// The protocol-level outcome of one RPC call: a successful response payload,
/// or a status carrying a code and a message.
#[derive(Clone, PartialEq, Eq, Debug)]
pub enum RpcOutcome {
    Response(Vec<u8>),
    Status(u32, String),
}

/// Where a method call goes.
#[derive(Clone, Copy, PartialEq, Eq, Structural, Debug)]
pub enum Route {
    /// Served by the gateway's own implementation.
    Native,
    /// Forwarded to the fallback daemon verbatim.
    Forward,
    /// Not in the advertised surface at all.
    Unknown,
}

/// Whether some entry of the table spells the given method name.
pub open spec fn table_contains(table: Seq<String>, method: Seq<char>) -> bool {
    exists|i: int| 0 <= i < table.len() && table[i]@ == method
}

/// No method name appears in both tables: forwarding and native handling are
/// mutually exclusive per method.
pub open spec fn tables_disjoint(forwarded: Seq<String>, native: Seq<String>) -> bool {
    forall|i: int, j: int|
        0 <= i < forwarded.len() && 0 <= j < native.len() ==> forwarded[i]@ != native[j]@
}

fn table_lookup(table: &Vec<String>, method: &String) -> (r: bool)
    ensures
        r == table_contains(table@, method@),
{
    let mut k: usize = 0;
    while k < table.len()
        invariant
            0 <= k <= table@.len(),
            forall|i: int| 0 <= i < k ==> table@[i]@ != method@,
        decreases table@.len() - k,
    {
        if table[k].eq(method) {
            return true;
        }
        k += 1;
    }
    false
}

/// The forwarding table: the fallback daemon's endpoint, the methods wired
/// for forwarding, and the methods served natively.
#[derive(Clone, PartialEq, Eq, Debug)]
pub struct Dispatcher {
    fallback: Endpoint,
    forwarded: Vec<String>,
    native: Vec<String>,
}

impl Dispatcher {
    /// The fallback daemon every forwarded call is sent to.
    pub closed spec fn spec_fallback(self) -> Endpoint {
        self.fallback
    }

    /// The methods wired for forwarding.
    pub closed spec fn spec_forwarded(self) -> Seq<String> {
        self.forwarded@
    }

    /// The methods served natively.
    pub closed spec fn spec_native(self) -> Seq<String> {
        self.native@
    }

    pub open spec fn wf(self) -> bool {
        &&& self.spec_fallback().wf()
        &&& tables_disjoint(self.spec_forwarded(), self.spec_native())
    }

    /// Builds a dispatcher, refusing a table in which some method is wired
    /// both for forwarding and for native handling.
    pub fn new(fallback: Endpoint, forwarded: Vec<String>, native: Vec<String>) -> (r: Option<
        Dispatcher,
    >)
        requires
            fallback.wf(),
        ensures
            r is Some <==> tables_disjoint(forwarded@, native@),
            r matches Some(d) ==> {
                &&& d.wf()
                &&& d.spec_fallback() == fallback
                &&& d.spec_forwarded() == forwarded@
                &&& d.spec_native() == native@
            },
    {
        let mut k: usize = 0;
        while k < forwarded.len()
            invariant
                0 <= k <= forwarded@.len(),
                forall|i: int, j: int|
                    0 <= i < k && 0 <= j < native@.len() ==> forwarded@[i]@ != native@[j]@,
            decreases forwarded@.len() - k,
        {
            if table_lookup(&native, &forwarded[k]) {
                proof {
                    let ki = k as int;
                    let j = choose|j: int| 0 <= j < native@.len() && native@[j]@ == forwarded@[ki]@;
                    assert(!tables_disjoint(forwarded@, native@));
                }
                return None;
            }
            k += 1;
        }
        Some(Dispatcher { fallback, forwarded, native })
    }

    /// Routes a method name: natively handled, forwarded, or unknown.
    /// Because the tables are disjoint, the answer is unambiguous.
    pub fn route(&self, method: &String) -> (r: Route)
        requires
            self.wf(),
        ensures
            r == Route::Native <==> table_contains(self.spec_native(), method@),
            r == Route::Forward <==> !table_contains(self.spec_native(), method@)
                && table_contains(self.spec_forwarded(), method@),
            r == Route::Unknown <==> !table_contains(self.spec_native(), method@)
                && !table_contains(self.spec_forwarded(), method@),
    {
        if table_lookup(&self.native, method) {
            Route::Native
        } else if table_lookup(&self.forwarded, method) {
            Route::Forward
        } else {
            Route::Unknown
        }
    }

    /// The connector a forwarding handler builds: bound to the fallback
    /// daemon's endpoint, with the transport kind following that endpoint's
    /// scheme (plaintext, or TLS if so configured).
    pub fn fallback_connector(&self) -> (r: GrpcConnector)
        requires
            self.wf(),
        ensures
            r.spec_uri() == self.spec_fallback(),
            r.wf(),
    {
        GrpcConnector::new(self.fallback.clone_endpoint())
    }

    /// The URI a forwarded call travels to: the fallback daemon's endpoint
    /// carrying the caller's own service and method path, unchanged. This is
    /// the whole rewrite a forwarding handler performs; no method-specific
    /// branching exists beside it.
    pub fn forward_uri(&self, service: &str, method: &str) -> (r: Option<String>)
        requires
            self.wf(),
        ensures
            r is Some <==> uri_parts_ok(
                self.spec_fallback().scheme.spec_str(),
                self.spec_fallback().authority@,
                spec_rpc_path(service@, method@),
            ),
            route_shape(spec_rpc_path(service@, method@)) ==> (r matches Some(s) ==> s@
                == self.spec_fallback().spec_uri(spec_rpc_path(service@, method@))),
    {
        let path = rpc_path(service, method);
        self.fallback_connector().rewrite_request_uri(path.as_str())
    }

    /// Hands a forwarded call's outcome back to the original caller. The
    /// outcome is returned with no transformation whatever: this is what
    /// makes forwarded behavior indistinguishable from calling the fallback
    /// directly.
    pub fn relay(&self, outcome: RpcOutcome) -> (r: RpcOutcome)
        ensures
            r == outcome,
    {
        outcome
    }
}

/// The gRPC route for a method: `"/" service "/" method`.
pub open spec fn spec_rpc_path(service: Seq<char>, method: Seq<char>) -> Seq<char> {
    "/"@ + service + "/"@ + method
}

/// Builds the request path a forwarded call travels on, from the service and
/// method names the caller used, unchanged.
pub fn rpc_path(service: &str, method: &str) -> (r: String)
    ensures
        r@ == spec_rpc_path(service@, method@),
{
    let mut path = String::from_str("/");
    path.append(service);
    path.append("/");
    path.append(method);
    path
}

/// An RPC route built from fragment-free service and method names of
/// ordinary length begins with `/`, carries no fragment itself and fits the
/// HTTP layer's cap, so composing a URI on it reproduces it exactly.
pub proof fn lemma_rpc_path_is_route_shaped(service: Seq<char>, method: Seq<char>)
    requires
        forall|i: int| 0 <= i < service.len() ==> service[i] != '#',
        forall|i: int| 0 <= i < method.len() ==> method[i] != '#',
        service.len() + method.len() + 2 <= 65534,
    ensures
        route_shape(spec_rpc_path(service, method)),
{
    reveal_strlit("/");
    let p = spec_rpc_path(service, method);
    assert(p[0] == '/');
    assert(p.len() == service.len() + method.len() + 2);
    assert forall|i: int| 0 <= i < p.len() implies p[i] != '#' by {
        let slash = "/"@;
        if i < slash.len() {
        } else if i < slash.len() + service.len() {
            assert(p[i] == service[i - slash.len()]);
        } else if i < slash.len() + service.len() + slash.len() {
            assert(p[i] == slash[i - slash.len() - service.len()]);
        } else {
            assert(p[i] == method[i - slash.len() - service.len() - slash.len()]);
        }
    }
}

/// What [`Dispatcher::relay`] does to an outcome: nothing.
pub open spec fn spec_relay(outcome: RpcOutcome) -> RpcOutcome {
    outcome
}

/// What a caller sees through the gateway: the fallback's own outcome for the
/// method and request, relayed untouched.
pub open spec fn gateway_response(
    fallback: spec_fn(Seq<char>, Seq<u8>) -> RpcOutcome,
    method: Seq<char>,
    request: Seq<u8>,
) -> RpcOutcome {
    spec_relay(fallback(method, request))
}

/// For a forwarding-wired method with deterministic fallback behavior,
/// invoking it through the gateway yields a response identical to invoking
/// it directly against the fallback, on identical inputs.
pub proof fn lemma_forwarding_transparent(
    fallback: spec_fn(Seq<char>, Seq<u8>) -> RpcOutcome,
    method: Seq<char>,
    request: Seq<u8>,
)
    ensures
        gateway_response(fallback, method, request) == fallback(method, request),
{
}

} // verus!
