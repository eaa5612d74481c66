//! The pool: sole owner of every thread record, and the only place where a
//! thread's state changes.
//!
//! Seen from outside, a pool is a map from handles to states together with
//! the next handle to issue. `send`, `receive` and `reply` are whole steps of
//! the protocol model: each either takes the map to the one the model gives,
//! or is refused and leaves the pool untouched.

use std::collections::HashMap;
use vstd::prelude::*;
use crate::error::Error;
use crate::protocol::{receive_step, reply_step, send_step, States};
use crate::thread::{State, Thread, ThreadId};

verus! {

broadcast use vstd::std_specs::hash::group_hash_axioms;

/// What a message carries. The pool accepts a payload and drops it.
pub type Payload = String;

/// All threads of one simulation run, and the next handle to issue.
#[derive(Debug)]
pub struct ThreadPool {
    pool: HashMap<ThreadId, Thread>,
    id_count: ThreadId,
}

impl View for ThreadPool {
    type V = States;

    /// The state of every thread, by handle.
    closed spec fn view(&self) -> States {
        Map::new(
            |id: ThreadId| self.pool@.contains_key(id),
            |id: ThreadId| self.pool@[id].state,
        )
    }
}

impl ThreadPool {
    /// The handles issued so far are exactly those from 1 up to, but not
    /// including, the next one, and each record carries its own handle.
    #[verifier::type_invariant]
    spec fn well_formed(&self) -> bool {
        &&& 1 <= self.id_count
        &&& forall|id: ThreadId| #[trigger]
            self.pool@.contains_key(id) <==> 1 <= id < self.id_count
        &&& forall|id: ThreadId| #[trigger]
            self.pool@.contains_key(id) ==> self.pool@[id].id == id
    }

    /// The handle that the next `create` will issue.
    pub closed spec fn spec_next_id(&self) -> ThreadId {
        self.id_count
    }

    /// An empty pool. The first handle it will issue is 1.
    pub fn new() -> (pool: ThreadPool)
        ensures
            pool@ == States::empty(),
            pool.spec_next_id() == 1,
    {
        ThreadPool { pool: HashMap::new(), id_count: 1 }
    }

    /// Adds a ready thread and returns its handle, which no thread of this
    /// pool had before. Handles are not reused, so a pool whose next handle
    /// is the largest number there is can take no more threads.
    pub fn create(&mut self) -> (id: ThreadId)
        requires
            old(self).spec_next_id() < u32::MAX,
        ensures
            id == old(self).spec_next_id(),
            final(self).spec_next_id() == id + 1,
            !old(self)@.contains_key(id),
            final(self)@ == old(self)@.insert(id, State::READY),
    {
        proof {
            use_type_invariant(&*self);
        }
        // The map is taken out while it changes, so that the pool is whole
        // at every point.
        let mut taken = ThreadPool::new();
        std::mem::swap(self, &mut taken);
        let ThreadPool { pool: mut pool, id_count } = taken;
        let thread_id = id_count;
        let thread = Thread::new(thread_id);
        pool.insert(thread_id, thread);
        *self = ThreadPool { pool, id_count: id_count + 1 };
        thread_id
    }

    /// `client_id` sends to `server_id`. The payload is accepted and dropped.
    ///
    /// Succeeds exactly when both handles are known and the client is ready.
    /// The client then waits in `REPLY` if the server was waiting in
    /// `RECEIVE`, and in `SEND` otherwise; a server that was waiting becomes
    /// ready. A refused call changes nothing.
    #[allow(unused_variables)]
    pub fn send(&mut self, client_id: ThreadId, server_id: ThreadId, payload: Payload) -> (result:
        Result<(), Error>)
        ensures
            final(self).spec_next_id() == old(self).spec_next_id(),
            result is Ok <==> old(self)@.contains_key(client_id) && old(self)@.contains_key(
                server_id,
            ) && old(self)@[client_id] == State::READY,
            match send_step(old(self)@, client_id, server_id) {
                Ok(states) => result == Ok::<(), Error>(()) && final(self)@ == states,
                Err(e) => result == Err::<(), Error>(e) && final(self)@ == old(self)@,
            },
    {
        let server_state = self.lookup(server_id)?.state;
        let mut client = self.lookup(client_id)?;
        client.send(&server_state)?;
        self.store(client);
        if server_state == State::RECEIVE {
            let mut server = Thread { id: server_id, state: server_state };
            server.client_sent();
            self.store(server);
        }
        Ok(())
    }

    /// `server_id` asks for a message from `client_id`.
    ///
    /// Succeeds exactly when both handles are known and the server is ready.
    /// The server then stays `READY` if the client was waiting in `SEND`,
    /// and waits in `RECEIVE` otherwise; a client that was waiting in `SEND`
    /// moves on to `REPLY`. A refused call changes nothing.
    pub fn receive(&mut self, server_id: ThreadId, client_id: ThreadId) -> (result: Result<
        (),
        Error,
    >)
        ensures
            final(self).spec_next_id() == old(self).spec_next_id(),
            result is Ok <==> old(self)@.contains_key(server_id) && old(self)@.contains_key(
                client_id,
            ) && old(self)@[server_id] == State::READY,
            match receive_step(old(self)@, server_id, client_id) {
                Ok(states) => result == Ok::<(), Error>(()) && final(self)@ == states,
                Err(e) => result == Err::<(), Error>(e) && final(self)@ == old(self)@,
            },
    {
        let client_state = self.lookup(client_id)?.state;
        let mut server = self.lookup(server_id)?;
        server.receive(&client_state)?;
        self.store(server);
        if client_state == State::SEND {
            let mut client = Thread { id: client_id, state: client_state };
            client.server_received();
            self.store(client);
        }
        Ok(())
    }

    /// `server_id` replies to `client_id`. The payload is accepted and
    /// dropped.
    ///
    /// Succeeds exactly when both handles are known, the server is ready and
    /// the client waits in `REPLY`. The client then becomes ready and the
    /// server stays ready. A refused call changes nothing; where both threads
    /// are in the wrong state the refusal names the server.
    #[allow(unused_variables)]
    pub fn reply(&mut self, server_id: ThreadId, client_id: ThreadId, payload: Payload) -> (result:
        Result<(), Error>)
        ensures
            final(self).spec_next_id() == old(self).spec_next_id(),
            result is Ok <==> old(self)@.contains_key(server_id) && old(self)@.contains_key(
                client_id,
            ) && old(self)@[server_id] == State::READY && old(self)@[client_id] == State::REPLY,
            match reply_step(old(self)@, server_id, client_id) {
                Ok(states) => result == Ok::<(), Error>(()) && final(self)@ == states,
                Err(e) => result == Err::<(), Error>(e) && final(self)@ == old(self)@,
            },
    {
        let mut server = self.lookup(server_id)?;
        let mut client = self.lookup(client_id)?;
        server.reply()?;
        client.server_replied()?;
        self.store(server);
        self.store(client);
        Ok(())
    }

    /// The record of thread `id`, or `None` if the pool never issued `id`.
    /// The handles issued are those from 1 up to the next one.
    pub fn get(&self, id: ThreadId) -> (found: Option<&Thread>)
        ensures
            self@.contains_key(id) <==> 1 <= id < self.spec_next_id(),
            match found {
                Some(thread) => self@.contains_key(id) && *thread == (Thread {
                    id,
                    state: self@[id],
                }),
                None => !self@.contains_key(id),
            },
    {
        proof {
            use_type_invariant(self);
        }
        self.pool.get(&id)
    }

    /// The handle that the next `create` will issue. It is never 0.
    #[verifier::when_used_as_spec(spec_next_id)]
    pub fn next_id(&self) -> (id: ThreadId)
        ensures
            id == self.spec_next_id(),
            1 <= id,
    {
        proof {
            use_type_invariant(self);
        }
        self.id_count
    }

    /// Every thread with its state, in the order in which the handles were
    /// issued. Nothing is changed.
    pub fn snapshot(&self) -> (listing: Vec<(ThreadId, State)>)
        ensures
            forall|id: ThreadId| #[trigger]
                self@.contains_key(id) <==> 1 <= id < self.spec_next_id(),
            listing@.len() == self.spec_next_id() - 1,
            forall|i: int|
                0 <= i < listing@.len() ==> #[trigger] listing@[i] == (
                    (i + 1) as ThreadId,
                    self@[(i + 1) as ThreadId],
                ),
    {
        proof {
            use_type_invariant(self);
        }
        let mut listing: Vec<(ThreadId, State)> = Vec::new();
        let mut id: ThreadId = 1;
        while id < self.id_count
            invariant
                1 <= id <= self.id_count,
                forall|k: ThreadId| #[trigger]
                    self.pool@.contains_key(k) <==> 1 <= k < self.id_count,
                listing@.len() == id - 1,
                forall|i: int|
                    0 <= i < listing@.len() ==> #[trigger] listing@[i] == (
                        (i + 1) as ThreadId,
                        self@[(i + 1) as ThreadId],
                    ),
            decreases self.id_count - id,
        {
            let thread = self.pool.get(&id).unwrap();
            listing.push((id, thread.state));
            id = id + 1;
        }
        listing
    }

    /// A copy of the record of thread `id`, or the refusal for a handle that
    /// the pool never issued.
    fn lookup(&self, id: ThreadId) -> (found: Result<Thread, Error>)
        ensures
            match found {
                Ok(thread) => self@.contains_key(id) && thread == (Thread {
                    id,
                    state: self@[id],
                }),
                Err(e) => !self@.contains_key(id) && e == Error::UnknownThreadId,
            },
    {
        match self.get(id) {
            Some(thread) => Ok(*thread),
            None => Err(Error::UnknownThreadId),
        }
    }

    /// Puts `thread` in the place of the record that carries its handle.
    fn store(&mut self, thread: Thread)
        requires
            old(self)@.contains_key(thread.id),
        ensures
            final(self)@ == old(self)@.insert(thread.id, thread.state),
            final(self).spec_next_id() == old(self).spec_next_id(),
    {
        proof {
            use_type_invariant(&*self);
        }
        // The map is taken out while it changes, so that the pool is whole
        // at every point.
        let mut taken = ThreadPool::new();
        std::mem::swap(self, &mut taken);
        let ThreadPool { pool: mut pool, id_count } = taken;
        pool.insert(thread.id, thread);
        *self = ThreadPool { pool, id_count };
    }
}

} // verus!
