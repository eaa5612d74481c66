//! A deterministic model of synchronous send / receive / reply message
//! passing between threads, as found in real-time microkernels.
//!
//! A client that sends is handed over to the server's receive and stays
//! blocked until the server replies. Nothing here blocks or schedules,
//! though: a "blocked" thread is a thread whose state field says so, and every
//! operation runs to its end at once.
//!
//! - [`thread`]: the four states, a thread record, and the rules that decide
//!   a single thread's next state.
//! - [`protocol`]: what each operation does to the states of all threads, as
//!   a mathematical model, with the laws that hold of it.
//! - [`thread_pool`]: the pool that owns every record and carries the
//!   operations out.
//! - [`error`]: why an operation was refused.

pub mod error;
pub mod protocol;
pub mod thread;
pub mod thread_pool;
