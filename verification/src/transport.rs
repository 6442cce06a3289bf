//! The unified connection object.
//!
//! A connection attempt yields either a plain byte stream or a TLS-wrapped
//! one; both are held behind one handle so that downstream protocol code
//! never branches on which variant it got. Construction is the only place
//! where the variant is selected: the handle has no operation that changes
//! it, and all later I/O (performed by the stream's own capabilities, outside
//! this crate) dispatches to the held variant.

use vstd::prelude::*;

verus! {

/// A connection to the peer: a plain stream `P` or a TLS-wrapped stream `S`.
#[derive(Debug)]
pub enum TransportHandle<P, S> {
    /// A plaintext connection.
    Plain(P),
    /// A TLS-encrypted connection.
    Secure(S),
}

impl<P, S> TransportHandle<P, S> {
    /// Wraps a raw stream as a plaintext connection.
    pub fn plain(stream: P) -> (h: Self)
        ensures
            h == TransportHandle::<P, S>::Plain(stream),
    {
        TransportHandle::Plain(stream)
    }

    /// Wraps an encrypted stream as a TLS connection.
    pub fn secure(stream: S) -> (h: Self)
        ensures
            h == TransportHandle::<P, S>::Secure(stream),
    {
        TransportHandle::Secure(stream)
    }

    /// Whether the handle holds the TLS variant.
    pub fn is_secure(&self) -> (r: bool)
        ensures
            r == (self is Secure),
    {
        match self {
            TransportHandle::Plain(_) => false,
            TransportHandle::Secure(_) => true,
        }
    }
}

/// The computing tail of the plain-connect operation: a raw stream obtained
/// from the transport is wrapped as the plain variant, and a transport
/// failure is passed through unmodified — it is never reclassified, and no
/// handle is produced from it.
pub fn complete_insecure<P, S, E>(outcome: Result<P, E>) -> (r: Result<TransportHandle<P, S>, E>)
    ensures
        outcome matches Ok(stream) ==> (r matches Ok(h) && h == TransportHandle::<P, S>::Plain(
            stream,
        )),
        outcome matches Err(e) ==> (r matches Err(e2) && e2 == e),
{
    match outcome {
        Ok(stream) => Ok(TransportHandle::plain(stream)),
        Err(e) => Err(e),
    }
}

/// The computing tail of the secure-connect operation: an encrypted stream
/// obtained from a completed handshake is wrapped as the secure variant, and
/// a failure is passed through unmodified — no partial handle is ever
/// produced from a failed attempt.
pub fn complete_secure<P, S, E>(outcome: Result<S, E>) -> (r: Result<TransportHandle<P, S>, E>)
    ensures
        outcome matches Ok(stream) ==> (r matches Ok(h) && h == TransportHandle::<P, S>::Secure(
            stream,
        )),
        outcome matches Err(e) ==> (r matches Err(e2) && e2 == e),
{
    match outcome {
        Ok(stream) => Ok(TransportHandle::secure(stream)),
        Err(e) => Err(e),
    }
}

} // verus!
