//! Why an operation was refused.

use vstd::prelude::*;
use crate::thread::{State, ThreadId};

verus! {

/// The operation a caller asked for. A refusal names it.
#[derive(Debug, PartialEq, Eq, Clone, Copy, Structural)]
pub enum Operation {
    /// A client hands a message to a server.
    Send,
    /// A server asks for a client's message.
    Receive,
    /// A server answers a client whose message it took.
    Reply,
}

/// A refused operation. A refused operation changes nothing.
#[derive(Debug, PartialEq, Eq, Clone, Copy, Structural)]
pub enum Error {
    /// A handle that the pool never issued was named.
    UnknownThreadId,
    /// The thread `id` was in `current_state`, from which it cannot take its
    /// part in `attempted_operation`.
    InvalidStateTransition { id: ThreadId, current_state: State, attempted_operation: Operation },
}

} // verus!
