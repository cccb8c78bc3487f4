//! The error taxonomy of the bridge.
//!
//! Every fallible operation of this crate reports one of these values to its
//! immediate caller; nothing is retried and nothing is swallowed.

use vstd::prelude::*;

verus! {

/// An error surfaced by the bridge itself (as opposed to a failure inside
/// the foreign engine, which the engine reports through its own channels).
#[derive(Clone, Copy, Debug, PartialEq, Eq, Structural)]
pub enum DucklingError {
    /// `stop` was invoked although the one-shot permission to stop the
    /// foreign runtime was already consumed by an earlier `stop` call.
    RuntimeAlreadyStopped,
    /// A facade operation was invoked while the foreign runtime was not
    /// running: either before `init` or after the runtime was shut down.
    RuntimeNotInitialized,
    /// Native text destined for a foreign call contains an embedded null
    /// byte and therefore has no C-string representation.
    InvalidText,
    /// Bytes handed back from the foreign side are not valid UTF-8, in a
    /// position where strict decoding is demanded.
    Encoding,
}

impl DucklingError {
    /// A short human-readable description of the error.
    pub fn message(&self) -> String {
        match self {
            DucklingError::RuntimeAlreadyStopped => "the foreign runtime may only be stopped once".to_owned(),
            DucklingError::RuntimeNotInitialized => "the foreign runtime is not running".to_owned(),
            DucklingError::InvalidText => "text contains an embedded null byte".to_owned(),
            DucklingError::Encoding => "foreign bytes are not valid UTF-8".to_owned(),
        }
    }
}

} // verus!
