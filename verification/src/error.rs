//! The error taxonomy of the safety facade.
//!
//! Every failure a facade operation can surface is a value of [`Error`].
//! All payloads are plain numbers, so an error says exactly which input was
//! rejected (and where) or which numeric code the engine handed back.

use vstd::prelude::*;

verus! {

/// A failure of a single facade operation.
///
/// Each variant is terminal for the call that produced it; nothing is retried
/// internally.
#[derive(Clone, Copy, Debug, PartialEq, Eq, Structural)]
pub enum Error {
    /// An input path is not representable in the text encoding the engine
    /// expects (its bytes are not valid UTF-8).
    ConversionFailure,
    /// An in-memory buffer is longer than the engine's 32-bit length
    /// parameter can carry.
    Overflow,
    /// The engine reported a failure through a non-zero status code.
    Ffi {
        /// The status code the engine returned.
        error_code: i32,
    },
    /// An engine reply was not valid UTF-8.
    Utf8 {
        /// The length of the longest valid UTF-8 prefix of the reply.
        valid_up_to: usize,
    },
    /// An input path holds an interior nul byte, so it cannot be passed as a
    /// C string.
    Nul {
        /// The position of the first nul byte.
        position: usize,
    },
}

} // verus!
