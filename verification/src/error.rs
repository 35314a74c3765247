use vstd::prelude::*;

verus! {

/// The closed set of failure kinds surfaced by every operation of this
/// client. Each variant carries the explanation text available at the
/// point of failure; callers discriminate by kind only.
#[derive(Debug)]
pub enum MaazDBError {
    /// TCP connect failure, a failed read or write, a short read, or a
    /// declared payload length above the packet ceiling.
    IoError(String),
    /// The server answered the handshake with something other than
    /// authentication success; carries the server's explanation.
    AuthError(String),
    /// A query was attempted on a non-connected session, or a query
    /// response carried an unrecognized type; carries the server's
    /// explanation when available.
    ProtocolError(String),
    /// The TLS handshake or session negotiation failed.
    TlsError(String),
}

} // verus!
