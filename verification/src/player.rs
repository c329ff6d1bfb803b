//! The caller's side: what the user interface calls.

pub mod front;
