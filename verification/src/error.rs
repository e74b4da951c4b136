//! The ways in which a session fails.

use vstd::prelude::*;
use crate::translate::TranslateError;

verus! {

/// A failure that ends the session. A wait that merely ran out of time is no
/// failure: the cycle then reports that it produced nothing.
#[derive(Clone, Copy, Debug, PartialEq, Eq, Structural)]
pub enum SessionError {
    /// The engine handed out a unit that it marks as invalid.
    InvalidContent,
    /// A call of the flow engine failed, or the pipeline clock gave no time.
    EngineUnavailable,
    /// The session holds no state for the operation: it was not started, it
    /// was stopped, or it is bound to the other kind of flow.
    StateError,
    /// The flow's rate has a part that is not positive.
    InvalidRate,
    /// An index or a timestamp left the range of 64 bits.
    OutOfRange,
}

impl SessionError {
    /// The session failure that a failed translation amounts to.
    pub open spec fn of_translation(e: TranslateError) -> SessionError {
        match e {
            TranslateError::InvalidRate => SessionError::InvalidRate,
            TranslateError::OutOfRange => SessionError::OutOfRange,
        }
    }

    pub fn from_translation(e: TranslateError) -> (r: SessionError)
        ensures
            r == SessionError::of_translation(e),
    {
        match e {
            TranslateError::InvalidRate => SessionError::InvalidRate,
            TranslateError::OutOfRange => SessionError::OutOfRange,
        }
    }
}

} // verus!
