//! A single simulated thread and the rules that decide its next state.
//!
//! The rules are spec functions over plain states. Each of them answers one
//! question: given my state and a snapshot of the other party's state, what
//! is my state after the operation? The methods of [`Thread`] apply a rule to
//! a record and report a refusal as an [`Error`].

use vstd::prelude::*;
use crate::error::{Error, Operation};

verus! {

/// Handle that names a thread. Handles are issued in increasing order by the
/// pool that owns the thread and are never issued twice.
pub type ThreadId = u32;

/// The state of a simulated thread.
#[allow(non_camel_case_types)]
#[derive(Debug, PartialEq, Eq, Clone, Copy, Structural)]
pub enum State {
    /// Idle. Only a ready thread may start a send, a receive or a reply.
    READY,
    /// A server that asked for a message when no client had sent one.
    RECEIVE,
    /// A client whose message has not been taken by the server yet.
    SEND,
    /// A client whose message was taken and who now waits for the reply.
    REPLY,
}

/// The state of a client after it sends to a server seen in `server_state`,
/// or `None` where the client may not send. A server that already waits takes
/// the message at once, so the client goes straight on to wait for the reply.
pub open spec fn decide_send(my_state: State, server_state: State) -> Option<State> {
    if my_state != State::READY {
        None
    } else if server_state == State::RECEIVE {
        Some(State::REPLY)
    } else {
        Some(State::SEND)
    }
}

/// The state of a server after it asks for a message from a client seen in
/// `client_state`, or `None` where the server may not receive. A message that
/// is already pending is taken at once, so the server stays ready.
pub open spec fn decide_receive(my_state: State, client_state: State) -> Option<State> {
    if my_state != State::READY {
        None
    } else if client_state == State::SEND {
        Some(State::READY)
    } else {
        Some(State::RECEIVE)
    }
}

/// The state of a server after it replies, or `None` where it may not reply.
/// Replying does not block: a ready server stays ready.
pub open spec fn decide_reply(my_state: State) -> Option<State> {
    if my_state == State::READY {
        Some(State::READY)
    } else {
        None
    }
}

/// The state of a client after its server replied, or `None` where the
/// client was not waiting for a reply.
pub open spec fn decide_unblock_on_reply(my_state: State) -> Option<State> {
    if my_state == State::REPLY {
        Some(State::READY)
    } else {
        None
    }
}

/// The state of a server after a client sent to it: a server that waited for
/// a message has received it and is ready again; any other state stays.
pub open spec fn maybe_release_receiver(server_state_before: State) -> State {
    if server_state_before == State::RECEIVE {
        State::READY
    } else {
        server_state_before
    }
}

/// The state of a client after the server asked for its message: a client
/// that waited to be received now waits for the reply; any other state stays.
pub open spec fn maybe_advance_to_reply(client_state_before: State) -> State {
    if client_state_before == State::SEND {
        State::REPLY
    } else {
        client_state_before
    }
}

/// The refusal handed to a thread that cannot take its part in `operation`.
pub open spec fn refusal(thread: Thread, operation: Operation) -> Error {
    Error::InvalidStateTransition {
        id: thread.id,
        current_state: thread.state,
        attempted_operation: operation,
    }
}

/// A thread record: its handle and its current state.
#[derive(Debug, PartialEq, Eq, Clone, Copy, Structural)]
pub struct Thread {
    pub id: ThreadId,
    pub state: State,
}

impl Thread {
    /// A new thread starts out ready.
    pub fn new(id: ThreadId) -> (thread: Thread)
        ensures
            thread == (Thread { id, state: State::READY }),
    {
        Thread { id, state: State::READY }
    }

    /// The refusal of `operation` to this thread as it is.
    fn refuse(&self, operation: Operation) -> (error: Error)
        ensures
            error == refusal(*self, operation),
    {
        Error::InvalidStateTransition {
            id: self.id,
            current_state: self.state,
            attempted_operation: operation,
        }
    }

    /// Sends to a server whose state was `server_state` when the call began.
    ///
    /// A ready thread becomes `REPLY` if the server was waiting in `RECEIVE`
    /// and `SEND` otherwise. A thread that is not ready is refused and keeps
    /// its state.
    pub fn send(&mut self, server_state: &State) -> (result: Result<(), Error>)
        ensures
            final(self).id == old(self).id,
            result is Ok <==> old(self).state == State::READY,
            match decide_send(old(self).state, *server_state) {
                Some(next) => result == Ok::<(), Error>(()) && final(self).state == next,
                None => result == Err::<(), Error>(refusal(*old(self), Operation::Send))
                    && final(self).state == old(self).state,
            },
    {
        if self.state != State::READY {
            return Err(self.refuse(Operation::Send));
        }
        if *server_state == State::RECEIVE {
            self.state = State::REPLY;
        } else {
            self.state = State::SEND;
        }
        Ok(())
    }

    /// Takes note that a client sent to this thread: a server waiting in
    /// `RECEIVE` has its message and is ready again.
    pub fn client_sent(&mut self)
        ensures
            final(self).id == old(self).id,
            final(self).state == maybe_release_receiver(old(self).state),
    {
        if self.state == State::RECEIVE {
            self.state = State::READY;
        }
    }

    /// Asks for a message from a client whose state was `client_state` when
    /// the call began.
    ///
    /// A ready thread stays `READY` if the client was waiting in `SEND` and
    /// becomes `RECEIVE` otherwise. A thread that is not ready is refused and
    /// keeps its state.
    pub fn receive(&mut self, client_state: &State) -> (result: Result<(), Error>)
        ensures
            final(self).id == old(self).id,
            result is Ok <==> old(self).state == State::READY,
            match decide_receive(old(self).state, *client_state) {
                Some(next) => result == Ok::<(), Error>(()) && final(self).state == next,
                None => result == Err::<(), Error>(refusal(*old(self), Operation::Receive))
                    && final(self).state == old(self).state,
            },
    {
        if self.state != State::READY {
            return Err(self.refuse(Operation::Receive));
        }
        if *client_state == State::SEND {
            self.state = State::READY;
        } else {
            self.state = State::RECEIVE;
        }
        Ok(())
    }

    /// Takes note that the server asked for this thread's message: a client
    /// waiting in `SEND` now waits in `REPLY`.
    pub fn server_received(&mut self)
        ensures
            final(self).id == old(self).id,
            final(self).state == maybe_advance_to_reply(old(self).state),
    {
        if self.state == State::SEND {
            self.state = State::REPLY;
        }
    }

    /// Replies to a client. Only a ready thread may reply, and it stays
    /// ready; any other thread is refused and keeps its state.
    pub fn reply(&mut self) -> (result: Result<(), Error>)
        ensures
            final(self).id == old(self).id,
            result is Ok <==> old(self).state == State::READY,
            match decide_reply(old(self).state) {
                Some(next) => result == Ok::<(), Error>(()) && final(self).state == next,
                None => result == Err::<(), Error>(refusal(*old(self), Operation::Reply))
                    && final(self).state == old(self).state,
            },
    {
        if self.state != State::READY {
            return Err(self.refuse(Operation::Reply));
        }
        self.state = State::READY;
        Ok(())
    }

    /// Takes the server's reply. Only a thread waiting in `REPLY` can take
    /// one, and it becomes ready; any other thread is refused and keeps its
    /// state.
    pub fn server_replied(&mut self) -> (result: Result<(), Error>)
        ensures
            final(self).id == old(self).id,
            result is Ok <==> old(self).state == State::REPLY,
            match decide_unblock_on_reply(old(self).state) {
                Some(next) => result == Ok::<(), Error>(()) && final(self).state == next,
                None => result == Err::<(), Error>(refusal(*old(self), Operation::Reply))
                    && final(self).state == old(self).state,
            },
    {
        if self.state != State::REPLY {
            return Err(self.refuse(Operation::Reply));
        }
        self.state = State::READY;
        Ok(())
    }
}

} // verus!
