use vstd::prelude::*;
use crate::local::app_error::AppError;

verus! {

/// The worker thread, as far as the coordinator needs it: it can be
/// started, asked whether it has finished, and waited for. The adapter
/// over the operating system's threads implements it; what its calls
/// return is the system's to say.
pub trait Front: Send + Sync {
    /// Starts the worker thread, which runs the polling loop on `uri`.
    fn start(&self, uri: &str) -> Result<(), AppError>;

    /// Whether the thread that was started last has finished. Without
    /// such a thread the answer is of no account.
    fn is_finished(&self) -> bool;

    /// Waits until the thread has finished, for `timeout_seconds` at most.
    fn wait_until_end(&self, timeout_seconds: u64) -> Result<(), AppError>;
}

} // verus!
