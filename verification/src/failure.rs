//! The failure taxonomy of the engine.
//!
//! Every failure is local to one connection: the supervisor moves to its
//! `Failed` state, the connection is torn down, and nothing propagates to
//! the listener or to other connections.

use vstd::prelude::*;

verus! {

/// Why a single connection was given up.
///
/// The parse failures (`MissingRequestLine` through `InvalidConnectPort`)
/// abort the connection before any dial is attempted; `DialFailed`,
/// `HandshakeWriteFailed` and `RelayFailed` abort it at the later stages.
#[derive(Clone, Copy, Debug, PartialEq, Eq, Structural)]
pub enum Failure {
    /// The initial read from the client failed.
    ReadFailed,
    /// The client closed the connection before sending any bytes.
    EmptyRead,
    /// The initial bytes hold no `\r\n`-terminated line.
    MissingRequestLine,
    /// The request line starts with a space: no method token.
    MissingMethod,
    /// The request line has no second token.
    MissingTarget,
    /// The method token is none of the recognised methods.
    UnknownMethod,
    /// The target of a non-CONNECT request is not an absolute URL.
    MalformedUrl,
    /// The URL parsed but names no host.
    MissingHost,
    /// The URL parsed but neither carries a port nor has a scheme with a
    /// known default port, or the port is zero.
    MissingPort,
    /// A CONNECT target with an empty host part.
    MissingConnectHost,
    /// A CONNECT target with no `:` or nothing after it.
    MissingConnectPort,
    /// A CONNECT port that is not a decimal number in 1..=65535.
    InvalidConnectPort,
    /// The origin could not be dialed.
    DialFailed,
    /// Writing the handshake bytes (CONNECT acknowledgment or forwarded
    /// request) failed.
    HandshakeWriteFailed,
    /// The relay ended with an I/O error in at least one direction.
    RelayFailed,
}

impl Failure {
    /// Whether the failure arises while interpreting the request, before
    /// any attempt to reach the origin.
    pub open spec fn is_parse_failure(self) -> bool {
        match self {
            Failure::MissingRequestLine
            | Failure::MissingMethod
            | Failure::MissingTarget
            | Failure::UnknownMethod
            | Failure::MalformedUrl
            | Failure::MissingHost
            | Failure::MissingPort
            | Failure::MissingConnectHost
            | Failure::MissingConnectPort
            | Failure::InvalidConnectPort => true,
            _ => false,
        }
    }
}

} // verus!
