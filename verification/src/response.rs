//! The reply value that the classifier reads.
//!
//! The wire protocol itself is out of scope: a reply reaches this crate
//! already reduced to its numeric reply code, which is all that
//! classification looks at.

use vstd::prelude::*;

verus! {

/// A reply code signals an error exactly when it is 400 or above
/// (the permanent- and transient-failure classes of the reply-code space).
pub open spec fn code_is_erroneous(code: u16) -> bool {
    code >= 400
}

/// A reply from the remote peer, reduced to its numeric reply code.
#[derive(Clone, Copy, Debug, PartialEq, Eq, Structural)]
pub struct Response {
    pub code: u16,
}

impl Response {
    /// Wraps a reply code.
    pub fn new(code: u16) -> (r: Response)
        ensures
            r.code == code,
    {
        Response { code }
    }

    /// The numeric reply code.
    pub fn code(&self) -> (c: u16)
        ensures
            c == self.code,
    {
        self.code
    }

    /// Whether the peer signalled an error with this reply.
    pub fn is_erroneous(&self) -> (r: bool)
        ensures
            r == code_is_erroneous(self.code),
    {
        self.code >= 400
    }
}

} // verus!
