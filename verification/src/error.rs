//! The closed taxonomy of protocol-level failures, and the classifier that
//! turns a received response into either the response itself or a failure.
//!
//! Transport failures (a connection or handshake that could not be
//! established) are a different kind and never appear here: a `LogicError`
//! means the transport worked and the *protocol* went wrong.

use vstd::prelude::*;

use crate::response::{code_is_erroneous, Response};

verus! {

/// An error supplied by a higher protocol layer and carried opaquely.
///
/// The classifier never looks inside such an error; all it must preserve is
/// the report the error gives of itself: its description, and the error that
/// caused it, where one exists.
#[derive(Debug, PartialEq, Eq)]
pub struct CustomError {
    /// What the error says of itself.
    pub description: String,
    /// The underlying error, where the higher layer recorded one.
    pub cause: Option<Box<CustomError>>,
}

impl CustomError {
    /// Builds an error that reports itself as `description`, with no
    /// underlying cause.
    pub fn new(description: String) -> (e: CustomError)
        ensures
            e.description == description,
            e.cause is None,
    {
        CustomError { description, cause: None }
    }

    /// Builds an error that reports itself as `description` and records
    /// `cause` as the error underlying it.
    pub fn with_cause(description: String, cause: CustomError) -> (e: CustomError)
        ensures
            e.description == description,
            e.cause matches Some(c) && *c == cause,
    {
        CustomError { description, cause: Some(Box::new(cause)) }
    }

    /// The error's own description.
    pub fn description(&self) -> (d: &str)
        ensures
            d@ == self.description@,
    {
        self.description.as_str()
    }

    /// The error underlying this one, where one was recorded.
    pub fn cause(&self) -> (c: Option<&CustomError>)
        ensures
            self.cause matches Some(y) ==> (c matches Some(x) && *x == *y),
            self.cause is None ==> c is None,
    {
        match &self.cause {
            Some(b) => Some(&**b),
            None => None,
        }
    }
}

/// A protocol-level failure. Exactly one variant is populated at a time, and
/// `Code`/`UnexpectedCode` carry the triggering response by value.
#[derive(Debug, PartialEq, Eq)]
pub enum LogicError {
    /// The peer replied with an error-class response code.
    Code(Response),
    /// The peer replied with a non-error response code, but the command that
    /// was issued could not handle it at this protocol stage.
    UnexpectedCode(Response),
    /// A failure detected by a higher protocol layer, carried opaquely so
    /// that this taxonomy need not know every higher-level error type.
    Custom(CustomError),
}

impl LogicError {
    /// What `description` returns, per variant: a fixed text for the two
    /// response-code variants, and the wrapped error's own description for
    /// `Custom`.
    pub open spec fn spec_description(&self) -> Seq<char> {
        match self {
            LogicError::Code(_) => "server responded with error response code"@,
            LogicError::UnexpectedCode(_) => "server responded with unexpected non-error response code"@,
            LogicError::Custom(e) => e.description@,
        }
    }

    /// What `cause` returns, per variant: the two response-code variants are
    /// root causes, and `Custom` delegates to the wrapped error's own cause.
    pub open spec fn spec_cause(&self) -> Option<CustomError> {
        match self {
            LogicError::Custom(e) => match e.cause {
                Some(b) => Some(*b),
                None => None,
            },
            _ => None,
        }
    }

    /// A fixed human-readable description of the failure; for `Custom` it is
    /// the wrapped error's own description, unchanged.
    pub fn description(&self) -> (d: &str)
        ensures
            d@ == self.spec_description(),
    {
        match self {
            LogicError::Code(_) => "server responded with error response code",
            LogicError::UnexpectedCode(_) => "server responded with unexpected non-error response code",
            LogicError::Custom(e) => e.description(),
        }
    }

    /// The underlying cause: none for the two response-code variants (they
    /// are root causes), and the wrapped error's own cause for `Custom`,
    /// unchanged.
    pub fn cause(&self) -> (c: Option<&CustomError>)
        ensures
            self.spec_cause() matches Some(y) ==> (c matches Some(x) && *x == y),
            self.spec_cause() is None ==> c is None,
    {
        match self {
            LogicError::Custom(e) => e.cause(),
            _ => None,
        }
    }
}

/// A `Custom` logic error is transparent: it reports exactly the wrapped
/// error's description and cause, adding no context of its own.
pub proof fn law_custom_is_transparent(e: CustomError)
    ensures
        LogicError::Custom(e).spec_description() == e.description@,
        e.cause matches Some(c) ==> LogicError::Custom(e).spec_cause() == Some(*c),
        e.cause is None ==> LogicError::Custom(e).spec_cause() is None,
{
}

/// Classifies a received response: an error-class response fails with
/// `LogicError::Code` wrapping exactly that response, and any other response
/// is returned unchanged. This is the only place `Code` is produced.
pub fn check_response(response: Response) -> (r: Result<Response, LogicError>)
    ensures
        code_is_erroneous(response.code) ==> (r matches Err(e) && e == LogicError::Code(response)),
        !code_is_erroneous(response.code) ==> (r matches Ok(resp) && resp == response),
{
    if response.is_erroneous() {
        Err(LogicError::Code(response))
    } else {
        Ok(response)
    }
}

} // verus!
