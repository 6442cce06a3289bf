//! Transport negotiation for a line-oriented network protocol client.
//!
//! The crate establishes either a plaintext or a TLS-encrypted connection to
//! a remote peer, yields both behind one uniform transport handle, and
//! classifies protocol-level response failures distinctly from transport
//! failures. The actual sockets, reactor and TLS primitives live outside;
//! what stands here is the decision logic: which step of a connection
//! attempt runs next, what a failed step resolves to, and how a received
//! response is classified.

pub mod connect;
pub mod error;
pub mod response;
pub mod transport;

pub use connect::{ConnectAction, ConnectEvent, ConnectPhase, SecureConnect};
pub use error::{check_response, CustomError, LogicError};
pub use response::{code_is_erroneous, Response};
pub use transport::{complete_insecure, complete_secure, TransportHandle};
