//! The worker's side: the commands and their structured form, the bus slot,
//! the pipe, the state machine of the polling loop, and the coordinator of
//! the worker's life.

pub mod bus;
pub mod coordinator;
pub mod engine;
pub mod front;
pub mod message;
pub mod model;
pub mod pipe;
pub mod streamer_loop;
pub mod structure;
