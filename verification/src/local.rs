//! What the rest of the library stands on: the error type, the lock that
//! gives up after a time, and the checks on text.

pub mod app_error;
pub mod local_state;
pub mod mutex_lock_timeout;
pub mod text;
