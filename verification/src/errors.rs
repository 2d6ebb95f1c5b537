//! The errors a message-processing cycle can surface.
use vstd::prelude::*;

verus! {

/// Why a message-processing cycle failed. Every failure aborts only the
/// current cycle for the current conversation and leaves storage exactly as
/// it was before the failing step.
#[derive(Clone, Copy, PartialEq, Eq, Structural, Debug)]
pub enum DialogueError {
    /// The chosen format could not represent the state value. Cannot occur
    /// for the states of this crate: every serializer strategy represents
    /// every state.
    SerializationError,
    /// The stored bytes are malformed, truncated, or encode a state unknown
    /// to the current program.
    DeserializationError,
    /// The backing store is unreachable. Transient: the caller may retry the
    /// whole cycle.
    StorageUnavailable,
    /// The transition handler failed on the incoming message.
    HandlerError,
}

} // verus!
