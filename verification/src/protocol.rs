//! The protocol as a mathematical model: what each of the three operations
//! does to the states of all threads.
//!
//! A model state is a map from thread handles to thread states. Each step
//! function gives the map after the operation, or the reason why the
//! operation is refused; a refused operation leaves the map as it was. The
//! pool's executable operations are specified by these functions.

use vstd::prelude::*;
use crate::error::{Error, Operation};
use crate::thread::{
    decide_receive, decide_reply, decide_send, decide_unblock_on_reply, maybe_advance_to_reply,
    maybe_release_receiver, refusal, State, Thread, ThreadId,
};

verus! {

/// The state of every thread, by handle.
pub type States = Map<ThreadId, State>;

/// What an operation leads to: the states after it, or why it was refused.
pub type Outcome = Result<States, Error>;

/// `client` sends to `server`.
///
/// Both must be known. The server's state is read first; the client's next
/// state is decided against that snapshot and written; then a server that
/// the snapshot shows waiting for a message is released.
pub open spec fn send_step(states: States, client: ThreadId, server: ThreadId) -> Outcome {
    if !states.contains_key(client) || !states.contains_key(server) {
        Err(Error::UnknownThreadId)
    } else {
        let server_before = states[server];
        match decide_send(states[client], server_before) {
            None => Err(refusal(Thread { id: client, state: states[client] }, Operation::Send)),
            Some(next) => {
                let sent = states.insert(client, next);
                if server_before == State::RECEIVE {
                    Ok(sent.insert(server, maybe_release_receiver(server_before)))
                } else {
                    Ok(sent)
                }
            },
        }
    }
}

/// `server` asks for a message from `client`.
///
/// Both must be known. The client's state is read first; the server's next
/// state is decided against that snapshot and written; then a client that
/// the snapshot shows waiting to be received is moved on to wait for the
/// reply.
pub open spec fn receive_step(states: States, server: ThreadId, client: ThreadId) -> Outcome {
    if !states.contains_key(server) || !states.contains_key(client) {
        Err(Error::UnknownThreadId)
    } else {
        let client_before = states[client];
        match decide_receive(states[server], client_before) {
            None => Err(refusal(Thread { id: server, state: states[server] }, Operation::Receive)),
            Some(next) => {
                let received = states.insert(server, next);
                if client_before == State::SEND {
                    Ok(received.insert(client, maybe_advance_to_reply(client_before)))
                } else {
                    Ok(received)
                }
            },
        }
    }
}

/// `server` replies to `client`.
///
/// Both must be known. The server must be ready and stays so; the client
/// must be waiting for a reply and becomes ready. The server is examined
/// first, so where both are at fault the refusal names the server.
pub open spec fn reply_step(states: States, server: ThreadId, client: ThreadId) -> Outcome {
    if !states.contains_key(server) || !states.contains_key(client) {
        Err(Error::UnknownThreadId)
    } else {
        match decide_reply(states[server]) {
            None => Err(refusal(Thread { id: server, state: states[server] }, Operation::Reply)),
            Some(server_next) => match decide_unblock_on_reply(states[client]) {
                None => Err(
                    refusal(Thread { id: client, state: states[client] }, Operation::Reply),
                ),
                Some(client_next) => Ok(
                    states.insert(server, server_next).insert(client, client_next),
                ),
            },
        }
    }
}

/// A thread is always in one of the four states, and in one only.
pub proof fn lemma_one_of_four_states(states: States, id: ThreadId)
    requires
        states.contains_key(id),
    ensures
        states[id] == State::READY || states[id] == State::RECEIVE || states[id] == State::SEND
            || states[id] == State::REPLY,
        State::READY != State::RECEIVE && State::READY != State::SEND && State::READY
            != State::REPLY,
        State::RECEIVE != State::SEND && State::RECEIVE != State::REPLY && State::SEND
            != State::REPLY,
{
}

/// Only a ready thread can start an operation. Whichever of the three a
/// thread starts, the operation succeeds only if the thread was ready; a
/// known thread that was not ready is refused, with a peer that is known too,
/// and the refusal names the thread, its state and the operation.
pub proof fn lemma_only_ready_initiates(states: States, initiator: ThreadId, peer: ThreadId)
    ensures
        send_step(states, initiator, peer) is Ok ==> states.contains_key(initiator)
            && states[initiator] == State::READY,
        receive_step(states, initiator, peer) is Ok ==> states.contains_key(initiator)
            && states[initiator] == State::READY,
        reply_step(states, initiator, peer) is Ok ==> states.contains_key(initiator)
            && states[initiator] == State::READY,
        states.contains_key(initiator) && states.contains_key(peer) && states[initiator]
            != State::READY ==> {
            let thread = (Thread { id: initiator, state: states[initiator] });
            &&& send_step(states, initiator, peer) == Outcome::Err(refusal(thread, Operation::Send))
            &&& receive_step(states, initiator, peer) == Outcome::Err(
                refusal(thread, Operation::Receive),
            )
            &&& reply_step(states, initiator, peer) == Outcome::Err(
                refusal(thread, Operation::Reply),
            )
        },
{
}

/// `after` has the threads of `before`, and each of them but `first` and
/// `second` in the state it had.
pub open spec fn differ_at_most_at(
    before: States,
    after: States,
    first: ThreadId,
    second: ThreadId,
) -> bool {
    &&& after.dom() == before.dom()
    &&& forall|id: ThreadId|
        before.contains_key(id) && id != first && id != second ==> #[trigger] after[id]
            == before[id]
}

/// An operation that succeeds keeps the set of threads and changes no
/// thread but the two it names.
pub proof fn lemma_step_touches_only_its_pair(states: States, first: ThreadId, second: ThreadId)
    ensures
        send_step(states, first, second) matches Ok(after) ==> differ_at_most_at(
            states,
            after,
            first,
            second,
        ),
        receive_step(states, first, second) matches Ok(after) ==> differ_at_most_at(
            states,
            after,
            first,
            second,
        ),
        reply_step(states, first, second) matches Ok(after) ==> differ_at_most_at(
            states,
            after,
            first,
            second,
        ),
{
    if let Ok(after) = send_step(states, first, second) {
        assert(after.dom() =~= states.dom());
    }
    if let Ok(after) = receive_step(states, first, second) {
        assert(after.dom() =~= states.dom());
    }
    if let Ok(after) = reply_step(states, first, second) {
        assert(after.dom() =~= states.dom());
    }
}

/// A ready client that sends to a server which is not waiting for a message
/// blocks in `SEND`, and nothing else changes. The server may be ready, or
/// itself blocked as a client of some other thread.
pub proof fn lemma_send_before_receive_blocks_client(
    states: States,
    client: ThreadId,
    server: ThreadId,
)
    requires
        states.contains_key(client),
        states.contains_key(server),
        states[client] == State::READY,
        states[server] != State::RECEIVE,
    ensures
        send_step(states, client, server) == Outcome::Ok(states.insert(client, State::SEND)),
{
}

/// A ready server that asks for the message of a client blocked in `SEND`
/// takes it at once: the server stays ready, the client moves on to `REPLY`,
/// and nothing else changes.
pub proof fn lemma_receive_takes_pending_message(
    states: States,
    server: ThreadId,
    client: ThreadId,
)
    requires
        states.contains_key(server),
        states.contains_key(client),
        states[server] == State::READY,
        states[client] == State::SEND,
    ensures
        receive_step(states, server, client) == Outcome::Ok(states.insert(client, State::REPLY)),
{
    assert(states.insert(server, State::READY).insert(client, State::REPLY) =~= states.insert(
        client,
        State::REPLY,
    ));
}

/// A ready server that asks for a message from a client which has not sent
/// blocks in `RECEIVE`, and nothing else changes.
pub proof fn lemma_receive_before_send_blocks_server(
    states: States,
    server: ThreadId,
    client: ThreadId,
)
    requires
        states.contains_key(server),
        states.contains_key(client),
        states[server] == State::READY,
        states[client] != State::SEND,
    ensures
        receive_step(states, server, client) == Outcome::Ok(
            states.insert(server, State::RECEIVE),
        ),
{
}

/// A ready client that sends to a server blocked in `RECEIVE` is received
/// at once: the client goes straight to `REPLY` without passing through
/// `SEND`, the server becomes ready, and nothing else changes.
pub proof fn lemma_send_to_waiting_server_delivers(
    states: States,
    client: ThreadId,
    server: ThreadId,
)
    requires
        states.contains_key(client),
        states.contains_key(server),
        states[client] == State::READY,
        states[server] == State::RECEIVE,
    ensures
        send_step(states, client, server) == Outcome::Ok(
            states.insert(client, State::REPLY).insert(server, State::READY),
        ),
{
}

/// Whoever comes first, the pairing of two ready threads ends alike. If the
/// client sends first, it blocks in `SEND` until the server's receive moves
/// it to `REPLY`. If the server receives first, it blocks in `RECEIVE` until
/// the client's send releases it. Either way the client ends in `REPLY`, the
/// server ready, and every other thread as it was.
pub proof fn lemma_pairing_in_either_order(states: States, client: ThreadId, server: ThreadId)
    requires
        states.contains_key(client),
        states.contains_key(server),
        client != server,
        states[client] == State::READY,
        states[server] == State::READY,
    ensures
        send_step(states, client, server) == Outcome::Ok(states.insert(client, State::SEND)),
        receive_step(states.insert(client, State::SEND), server, client) == Outcome::Ok(
            states.insert(client, State::REPLY),
        ),
        receive_step(states, server, client) == Outcome::Ok(
            states.insert(server, State::RECEIVE),
        ),
        send_step(states.insert(server, State::RECEIVE), client, server) == Outcome::Ok(
            states.insert(client, State::REPLY),
        ),
{
    let sent = states.insert(client, State::SEND);
    lemma_receive_takes_pending_message(sent, server, client);
    assert(sent.insert(client, State::REPLY) =~= states.insert(client, State::REPLY));
    let waiting = states.insert(server, State::RECEIVE);
    lemma_send_to_waiting_server_delivers(waiting, client, server);
    assert(waiting.insert(client, State::REPLY).insert(server, State::READY) =~= states.insert(
        client,
        State::REPLY,
    ));
}

/// The reply closes the loop: a ready server that replies to a client
/// blocked in `REPLY` stays ready, the client becomes ready, and nothing
/// else changes.
pub proof fn lemma_reply_closes_the_loop(states: States, server: ThreadId, client: ThreadId)
    requires
        states.contains_key(server),
        states.contains_key(client),
        states[server] == State::READY,
        states[client] == State::REPLY,
    ensures
        reply_step(states, server, client) == Outcome::Ok(states.insert(client, State::READY)),
{
    assert(states.insert(server, State::READY).insert(client, State::READY) =~= states.insert(
        client,
        State::READY,
    ));
}

/// A client blocked in `REPLY` is released by a reply to it and by nothing
/// else: an operation that succeeds leaves thread `id` in `REPLY`, unless it
/// is a reply to `id`, which leaves `id` ready.
pub proof fn lemma_only_a_reply_releases(
    states: States,
    first: ThreadId,
    second: ThreadId,
    id: ThreadId,
)
    requires
        states.contains_key(id),
        states[id] == State::REPLY,
    ensures
        send_step(states, first, second) matches Ok(after) ==> after[id] == State::REPLY,
        receive_step(states, first, second) matches Ok(after) ==> after[id] == State::REPLY,
        reply_step(states, first, second) matches Ok(after) ==> if id == second {
            after[id] == State::READY
        } else {
            after[id] == State::REPLY
        },
{
}

/// A whole exchange between two ready threads leaves every thread as it
/// was: send and receive, in either order, and then the reply lead back to
/// the states from which the exchange began.
pub proof fn lemma_exchange_restores_states(states: States, client: ThreadId, server: ThreadId)
    requires
        states.contains_key(client),
        states.contains_key(server),
        client != server,
        states[client] == State::READY,
        states[server] == State::READY,
    ensures
        send_step(states, client, server) matches Ok(sent) && receive_step(sent, server, client)
            matches Ok(paired) && reply_step(paired, server, client) == Outcome::Ok(states),
        receive_step(states, server, client) matches Ok(waiting) && send_step(
            waiting,
            client,
            server,
        ) matches Ok(paired) && reply_step(paired, server, client) == Outcome::Ok(states),
{
    lemma_pairing_in_either_order(states, client, server);
    let paired = states.insert(client, State::REPLY);
    lemma_reply_closes_the_loop(paired, server, client);
    assert(paired.insert(client, State::READY) =~= states);
}

} // verus!
