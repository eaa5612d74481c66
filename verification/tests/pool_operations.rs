use sync_msg::thread::{State, Thread};
use sync_msg::thread_pool::ThreadPool;

#[test]
fn thread_pool_send_not_received_test() {
    let mut thread_pool = ThreadPool::new();
    let id1 = thread_pool.create();
    let id2 = thread_pool.create();

    let thread2_state: State = {
        let t = thread_pool.get(id2).unwrap();
        t.state.clone()
    };

    thread_pool.send(id1, id2, "Hi".to_string()).unwrap();

    let thread1: &Thread = thread_pool.get(id1).unwrap();
    let thread2: &Thread = thread_pool.get(id2).unwrap();
    assert_eq!(thread1.state, State::SEND);
    assert_eq!(thread2.state, thread2_state);
}

#[test]
fn thread_pool_send_received_test() {
    let mut thread_pool = ThreadPool::new();
    let id1 = thread_pool.create();
    let id2 = thread_pool.create();

    // The server is already waiting for a message.
    thread_pool.receive(id2, id1).unwrap();
    assert_eq!(thread_pool.get(id2).unwrap().state, State::RECEIVE);

    thread_pool.send(id1, id2, "Hi".to_string()).unwrap();

    let thread1: &Thread = thread_pool.get(id1).unwrap();
    let thread2: &Thread = thread_pool.get(id2).unwrap();
    assert_eq!(thread1.state, State::REPLY);
    assert_eq!(thread2.state, State::READY);
}

#[test]
fn thread_pool_receive_not_send_test() {
    let mut thread_pool = ThreadPool::new();
    let id1 = thread_pool.create();
    let id2 = thread_pool.create();

    let thread2_state: State = {
        let t = thread_pool.get(id2).unwrap();
        t.state.clone()
    };

    thread_pool.receive(id1, id2).unwrap();

    let thread1: &Thread = thread_pool.get(id1).unwrap();
    let thread2: &Thread = thread_pool.get(id2).unwrap();
    assert_eq!(thread1.state, State::RECEIVE);
    assert_eq!(thread2.state, thread2_state);
}

#[test]
fn thread_pool_receive_sent_test() {
    let mut thread_pool = ThreadPool::new();
    let id1 = thread_pool.create();
    let id2 = thread_pool.create();

    // The client has already sent.
    thread_pool.send(id2, id1, "Hi".to_string()).unwrap();
    assert_eq!(thread_pool.get(id2).unwrap().state, State::SEND);

    thread_pool.receive(id1, id2).unwrap();

    let thread1: &Thread = thread_pool.get(id1).unwrap();
    let thread2: &Thread = thread_pool.get(id2).unwrap();
    assert_eq!(thread1.state, State::READY);
    assert_eq!(thread2.state, State::REPLY);
}

#[test]
fn thread_pool_reply_test() {
    let mut thread_pool = ThreadPool::new();
    let id1 = thread_pool.create();
    let id2 = thread_pool.create();

    // The client's message was taken, and it waits for the reply.
    thread_pool.send(id1, id2, "Hi".to_string()).unwrap();
    thread_pool.receive(id2, id1).unwrap();
    assert_eq!(thread_pool.get(id1).unwrap().state, State::REPLY);

    thread_pool.reply(id2, id1, "Welcome back".to_string()).unwrap();

    let thread1: &Thread = thread_pool.get(id1).unwrap();
    let thread2: &Thread = thread_pool.get(id2).unwrap();
    assert_eq!(thread1.state, State::READY);
    assert_eq!(thread2.state, State::READY);
}

#[test]
fn main_send_not_received_test() {
    let mut thread_pool = ThreadPool::new();
    let id1 = thread_pool.create();
    let id2 = thread_pool.create();

    let thread2_state: State = {
        let t = thread_pool.get(id2).unwrap();
        t.state.clone()
    };

    thread_pool.send(id1, id2, "Hi".to_string()).unwrap();

    let thread1: &Thread = thread_pool.get(id1).unwrap();
    let thread2: &Thread = thread_pool.get(id2).unwrap();
    assert_eq!(thread1.state, State::SEND);
    assert_eq!(thread2.state, thread2_state);
}

#[test]
fn main_send_received_test() {
    let mut thread_pool = ThreadPool::new();
    let id1 = thread_pool.create();
    let id2 = thread_pool.create();

    // The server is already waiting for a message.
    thread_pool.receive(id2, id1).unwrap();
    assert_eq!(thread_pool.get(id2).unwrap().state, State::RECEIVE);

    thread_pool.send(id1, id2, "Hi".to_string()).unwrap();

    let thread1: &Thread = thread_pool.get(id1).unwrap();
    let thread2: &Thread = thread_pool.get(id2).unwrap();
    assert_eq!(thread1.state, State::REPLY);
    assert_eq!(thread2.state, State::READY);
}

#[test]
fn main_receive_not_send_test() {
    let mut thread_pool = ThreadPool::new();
    let id1 = thread_pool.create();
    let id2 = thread_pool.create();

    let thread2_state: State = {
        let t = thread_pool.get(id2).unwrap();
        t.state.clone()
    };

    thread_pool.receive(id1, id2).unwrap();

    let thread1: &Thread = thread_pool.get(id1).unwrap();
    let thread2: &Thread = thread_pool.get(id2).unwrap();
    assert_eq!(thread1.state, State::RECEIVE);
    assert_eq!(thread2.state, thread2_state);
}

#[test]
fn main_receive_sent_test() {
    let mut thread_pool = ThreadPool::new();
    let id1 = thread_pool.create();
    let id2 = thread_pool.create();

    // The client has already sent.
    thread_pool.send(id2, id1, "Hi".to_string()).unwrap();
    assert_eq!(thread_pool.get(id2).unwrap().state, State::SEND);

    thread_pool.receive(id1, id2).unwrap();

    let thread1: &Thread = thread_pool.get(id1).unwrap();
    let thread2: &Thread = thread_pool.get(id2).unwrap();
    assert_eq!(thread1.state, State::READY);
    assert_eq!(thread2.state, State::REPLY);
}

#[test]
fn main_reply_test() {
    let mut thread_pool = ThreadPool::new();
    let id1 = thread_pool.create();
    let id2 = thread_pool.create();

    // The client's message was taken, and it waits for the reply.
    thread_pool.send(id1, id2, "Hi".to_string()).unwrap();
    thread_pool.receive(id2, id1).unwrap();
    assert_eq!(thread_pool.get(id1).unwrap().state, State::REPLY);

    thread_pool.reply(id2, id1, "Welcome back".to_string()).unwrap();

    let thread1: &Thread = thread_pool.get(id1).unwrap();
    let thread2: &Thread = thread_pool.get(id2).unwrap();
    assert_eq!(thread1.state, State::READY);
    assert_eq!(thread2.state, State::READY);
}
