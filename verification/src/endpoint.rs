//! Endpoints: an immutable (scheme, authority) pair naming a backend service,
//! and the URI arithmetic that binds an outgoing request to one.

use vstd::prelude::*;
use vstd::string::StringExecFns;

verus! {

/// The scheme part of an endpoint. The gateway speaks HTTP/2 either in the
/// clear or over TLS, so only these two schemes ever name a backend.
#[derive(Clone, Copy, PartialEq, Eq, Structural, Debug)]
pub enum Scheme {
    Http,
    Https,
}

impl Scheme {
    /// The scheme as it is spelled inside a URI.
    pub open spec fn spec_str(self) -> Seq<char> {
        match self {
            Scheme::Http => "http"@,
            Scheme::Https => "https"@,
        }
    }

    /// Executable counterpart of [`Scheme::spec_str`].
    pub fn as_str(self) -> (r: &'static str)
        ensures
            r@ == self.spec_str(),
    {
        match self {
            Scheme::Http => "http",
            Scheme::Https => "https",
        }
    }
}

/// The full URI string composed of a scheme, an authority and a
/// path-and-query, exactly as it appears on the wire:
/// `scheme "://" authority path_and_query`.
pub open spec fn uri_str(scheme: Seq<char>, authority: Seq<char>, paq: Seq<char>) -> Seq<char> {
    scheme + "://"@ + authority + paq
}

/// A path-and-query in the shape every RPC route has: it begins with `/`,
/// carries no fragment, and fits the length cap the HTTP layer puts on a
/// URI (it keeps the query's offset in 16 bits). Composing a URI from parts
/// reproduces such a path-and-query exactly; one outside this shape may be
/// normalized or mangled instead.
pub open spec fn route_shape(paq: Seq<char>) -> bool {
    &&& paq.len() > 0
    &&& paq.len() <= 65534
    &&& paq[0] == '/'
    &&& forall|i: int| 0 <= i < paq.len() ==> paq[i] != '#'
}

/// Whether `http` accepts this (scheme, authority, path-and-query) triple as
/// the parts of a URI.
pub uninterp spec fn uri_parts_ok(scheme: Seq<char>, authority: Seq<char>, paq: Seq<char>) -> bool;

/// Relies on `http::uri::Builder` (`scheme`, `authority`, `path_and_query`,
/// `build`) and on `http::Uri`'s `Display`: with all three parts present,
/// `build` succeeds exactly when each part parses, and the URI prints as
/// `scheme "://" authority path` followed by `"?" query` when one was given,
/// which for a fragment-free path-and-query starting with `/` is the exact
/// concatenation of the parts. The exactness claim is confined to
/// `route_shape`, whose length bound keeps the stored 16-bit query offset
/// from wrapping: a fragment would be truncated, an empty path printed as
/// `/`, and a `?` beyond the bound misplaced.
#[verifier::external_body]
fn assemble_uri(scheme: &str, authority: &str, paq: &str) -> (r: Option<String>)
    ensures
        r is Some <==> uri_parts_ok(scheme@, authority@, paq@),
        route_shape(paq@) ==> (r matches Some(s) ==> s@ == uri_str(scheme@, authority@, paq@)),
{
    let built = http::Uri::builder()
        .scheme(scheme)
        .authority(authority)
        .path_and_query(paq)
        .build();
    match built {
        Ok(uri) => Some(uri.to_string()),
        Err(_) => None,
    }
}

/// An immutable (scheme, authority) pair identifying a backend service.
#[derive(Clone, PartialEq, Eq, Debug)]
pub struct Endpoint {
    pub scheme: Scheme,
    pub authority: String,
}

impl Endpoint {
    /// An endpoint is well formed when its authority is non-empty.
    pub open spec fn wf(self) -> bool {
        self.authority@.len() > 0
    }

    pub fn new(scheme: Scheme, authority: String) -> (r: Endpoint)
        requires
            authority@.len() > 0,
        ensures
            r.scheme == scheme,
            r.authority@ == authority@,
            r.wf(),
    {
        Endpoint { scheme, authority }
    }

    /// The endpoint reaching a port on the local host in the clear, as the
    /// health check dials the gateway's own just-bound listener.
    pub fn localhost(port: u16) -> (r: Endpoint)
        ensures
            r.scheme == Scheme::Http,
            r.authority@ == "localhost:"@ + dec_str(port as nat),
            r.wf(),
    {
        let mut authority = String::from_str("localhost:");
        let digits = u16_to_decimal(port);
        authority.append(digits.as_str());
        proof {
            reveal_strlit("localhost:");
        }
        Endpoint { scheme: Scheme::Http, authority }
    }

    /// An explicit clone carrying the fields over exactly.
    pub fn clone_endpoint(&self) -> (r: Endpoint)
        ensures
            r == *self,
    {
        Endpoint { scheme: self.scheme, authority: self.authority.clone() }
    }

    /// The URI naming this endpoint with the given path and query attached.
    pub open spec fn spec_uri(self, paq: Seq<char>) -> Seq<char> {
        uri_str(self.scheme.spec_str(), self.authority@, paq)
    }

    /// Rebuilds a request URI against this endpoint: the scheme and authority
    /// are this endpoint's, the path and query are the caller's, preserved
    /// exactly. Returns `None` exactly when `http` rejects the parts.
    pub fn uri_with_path(&self, paq: &str) -> (r: Option<String>)
        ensures
            r is Some <==> uri_parts_ok(self.scheme.spec_str(), self.authority@, paq@),
            route_shape(paq@) ==> (r matches Some(s) ==> s@ == self.spec_uri(paq@)),
    {
        assemble_uri(self.scheme.as_str(), self.authority.as_str(), paq)
    }
}

/// The decimal digit character for a value below ten.
pub open spec fn dec_digit(d: nat) -> char {
    if d == 0 {
        '0'
    } else if d == 1 {
        '1'
    } else if d == 2 {
        '2'
    } else if d == 3 {
        '3'
    } else if d == 4 {
        '4'
    } else if d == 5 {
        '5'
    } else if d == 6 {
        '6'
    } else if d == 7 {
        '7'
    } else if d == 8 {
        '8'
    } else {
        '9'
    }
}

/// The decimal representation of a natural number, most significant digit
/// first, with no leading zeros (a lone zero for zero itself).
pub open spec fn dec_str(n: nat) -> Seq<char>
    decreases n,
{
    if n < 10 {
        seq![dec_digit(n)]
    } else {
        dec_str(n / 10) + seq![dec_digit(n % 10)]
    }
}

fn dec_digit_str(d: u16) -> (r: &'static str)
    requires
        d < 10,
    ensures
        r@ == seq![dec_digit(d as nat)],
{
    let r: &'static str = match d {
        0 => "0",
        1 => "1",
        2 => "2",
        3 => "3",
        4 => "4",
        5 => "5",
        6 => "6",
        7 => "7",
        8 => "8",
        _ => "9",
    };
    proof {
        reveal_strlit("0");
        reveal_strlit("1");
        reveal_strlit("2");
        reveal_strlit("3");
        reveal_strlit("4");
        reveal_strlit("5");
        reveal_strlit("6");
        reveal_strlit("7");
        reveal_strlit("8");
        reveal_strlit("9");
        assert(r@ =~= seq![dec_digit(d as nat)]);
    }
    r
}

/// Renders a port (or any 16-bit value) in decimal.
pub fn u16_to_decimal(n: u16) -> (r: String)
    ensures
        r@ == dec_str(n as nat),
    decreases n,
{
    if n < 10 {
        String::from_str(dec_digit_str(n))
    } else {
        let prefix = u16_to_decimal(n / 10);
        prefix.concat(dec_digit_str(n % 10))
    }
}

} // verus!
