//! Suspendable computations (generators, coroutines and async generators)
//! as a protocol layer over a resumable execution frame.

pub mod atomic_flag;
pub mod coro;
pub mod exception;
pub mod hex;
pub mod laws;
pub mod outcome;
