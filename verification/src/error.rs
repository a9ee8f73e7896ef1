//! Error kinds of the gateway core, and the exit discipline for the fatal
//! ones.

use vstd::prelude::*;

verus! {

/// The failure categories of the gateway core. The first three are fatal by
/// design: the core has no partial-degradation mode. A forwarding failure is
/// the only caller-recoverable category; it is surfaced to the caller
/// verbatim, never retried.
#[derive(Clone, Copy, PartialEq, Eq, Structural, Debug)]
pub enum ProxyError {
    /// The upstream node was unreachable at launch.
    Connectivity,
    /// The transport-level client configuration could not be built.
    TransportBuild,
    /// The spawned server failed its own probe after every allowed attempt.
    HealthCheck,
    /// A forwarded call failed at the wire or protocol level.
    Forwarding,
}

impl ProxyError {
    /// Fatal errors terminate the process with a status that is never zero.
    pub fn exit_code(self) -> (r: u8)
        ensures
            r != 0,
    {
        1
    }

    /// An operator-facing description. Informational only: nothing consults
    /// it for control decisions.
    pub fn describe(self) -> (r: &'static str)
        ensures
            self is Connectivity ==> r@ == "upstream node unreachable at launch"@,
            self is TransportBuild ==> r@ == "transport client configuration failed"@,
            self is HealthCheck ==> r@ == "spawned server failed its health probe"@,
            self is Forwarding ==> r@ == "forwarded call failed at the wire"@,
    {
        match self {
            ProxyError::Connectivity => "upstream node unreachable at launch",
            ProxyError::TransportBuild => "transport client configuration failed",
            ProxyError::HealthCheck => "spawned server failed its health probe",
            ProxyError::Forwarding => "forwarded call failed at the wire",
        }
    }
}

/// A serialization error, reported when a byte stream headed into or out of
/// the gateway cannot be read as the value it should hold. Each variant
/// carries the reading layer's own description of what went wrong.
#[derive(Clone, PartialEq, Eq, Debug)]
pub enum SerializationError {
    /// An io error that prevented deserialization.
    Io(String),
    /// The data to be deserialized was malformed.
    Parse(&'static str),
    /// A string was not UTF-8.
    Utf8Error(String),
    /// A slice was an unexpected length during deserialization.
    TryFromSliceError(String),
    /// The length of a vec is too large to convert to a usize.
    TryFromIntError(String),
    /// A string was not valid hexadecimal.
    FromHexError(String),
}

impl SerializationError {
    /// The category, as a word for diagnostics.
    pub fn kind_name(&self) -> (r: &'static str)
        ensures
            self is Io ==> r@ == "io"@,
            self is Parse ==> r@ == "parse"@,
            self is Utf8Error ==> r@ == "utf8"@,
            self is TryFromSliceError ==> r@ == "slice length"@,
            self is TryFromIntError ==> r@ == "integer size"@,
            self is FromHexError ==> r@ == "hex"@,
    {
        match self {
            SerializationError::Io(_) => "io",
            SerializationError::Parse(_) => "parse",
            SerializationError::Utf8Error(_) => "utf8",
            SerializationError::TryFromSliceError(_) => "slice length",
            SerializationError::TryFromIntError(_) => "integer size",
            SerializationError::FromHexError(_) => "hex",
        }
    }
}

} // verus!
