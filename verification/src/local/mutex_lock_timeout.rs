use vstd::prelude::*;
use vstd::string::StringExecFns;
use core::time::Duration;
use parking_lot::{Mutex, MutexGuard};
use crate::local::app_error::{AppError, ErrorKind};
use crate::local::text::same_text;

verus! {

/// How long a lock is waited for when the caller names no time, in seconds.
pub const LOCK_DEFAULT_TIMEOUT_SECONDS: u64 = 5;

/// The message of the error that a lock not acquired in time gives.
pub const TIMEOUT_ERROR_MESSAGE: &'static str = "Lock timeout.";

/// `parking_lot::RawMutex`, the lock inside a `parking_lot::Mutex`. Nothing
/// is stated of it.
#[verifier::external_type_specification]
#[verifier::external_body]
pub struct ExRawMutex(parking_lot::RawMutex);

/// `lock_api::Mutex`, of which `parking_lot::Mutex<T>` is the instance with
/// `RawMutex`. Nothing is stated of what it holds: another thread may
/// change that between any two calls.
#[verifier::external_type_specification]
#[verifier::external_body]
#[verifier::reject_recursive_types(R)]
#[verifier::reject_recursive_types(T)]
pub struct ExMutex<R, T: ?Sized>(parking_lot::lock_api::Mutex<R, T>);

/// `core::time::Duration::from_secs`. Nothing is stated of the result.
pub assume_specification[ Duration::from_secs ](secs: u64) -> (d: Duration)
;

/// A lock that is held: a `parking_lot::MutexGuard`, which gives the lock
/// back when it is dropped. The guard's own type cannot be made known to
/// the verifier, so it is kept in here, and nothing is stated of what it
/// guards.
#[verifier::external_body]
#[verifier::reject_recursive_types(T)]
pub struct Locked<'a, T> {
    guard: MutexGuard<'a, T>,
}

/// `lock_api::Mutex::new`: a mutex that holds `value`. Nothing is stated
/// of the result.
#[verifier::external_body]
fn new_mutex<T>(value: T) -> (m: Mutex<T>) {
    Mutex::new(value)
}

/// `lock_api::Mutex::try_lock_for`: the guard if the lock was acquired
/// before the time ran out, `None` if not. Which of the two comes back
/// depends on the other threads, so nothing is stated of it. A time so
/// long that the clock cannot hold its end is waited for without end.
#[verifier::external_body]
fn acquire<'a, T>(mutex: &'a Mutex<T>, timeout: Duration) -> (r: Option<Locked<'a, T>>) {
    mutex.try_lock_for(timeout).map(|guard| Locked { guard })
}

/// `Deref::deref` of `lock_api::MutexGuard`: what the lock guards.
#[verifier::external_body]
fn guarded<'a, 'b, T>(locked: &'a Locked<'b, T>) -> (r: &'a T) {
    &*locked.guard
}

/// `DerefMut::deref_mut` of `lock_api::MutexGuard`: what the lock guards,
/// to be changed.
#[verifier::external_body]
fn guarded_mut<'a, 'b, T>(locked: &'a mut Locked<'b, T>) -> (r: &'a mut T) {
    &mut *locked.guard
}

/// Whether `value` is what `Deref::deref` of the guard in `locked` gave.
pub closed spec fn held<T>(locked: &Locked<T>, value: &T) -> bool {
    call_ensures(guarded::<T>, (locked,), value)
}

impl<'b, T> Locked<'b, T> {
    /// What the lock guards: what `Deref::deref` of the guard gives.
    pub fn get<'a>(&'a self) -> (r: &'a T)
        ensures
            held(self, r),
    {
        guarded(self)
    }

    /// What the lock guards, to be changed.
    pub fn get_mut<'a>(&'a mut self) -> (r: &'a mut T) {
        guarded_mut(self)
    }
}

/// Whether `e` is the error of a lock that was not acquired in time.
pub open spec fn is_lock_timeout(e: AppError) -> bool {
    e.spec_kind() == ErrorKind::Resource && e.spec_message() == TIMEOUT_ERROR_MESSAGE@
}

/// Locks that are waited for no longer than a given time.
pub trait MutexLockTimeout<T> {
    /// Whether `r` is the outcome of waiting for this lock for `duration`.
    spec fn waited_for(&self, duration: Duration, r: Result<Locked<'_, T>, AppError>) -> bool;

    /// The lock, if it was acquired within `duration`; else the error of a
    /// lock timeout.
    fn try_lock_for(&self, duration: Duration) -> (r: Result<Locked<'_, T>, AppError>)
        ensures
            self.waited_for(duration, r),
            r is Err ==> is_lock_timeout(r->Err_0),
    ;

    /// The lock, if it was acquired within the default time; else the
    /// error of a lock timeout.
    fn try_lock_default_duration(&self) -> (r: Result<Locked<'_, T>, AppError>)
        ensures
            exists|timeout: Duration| #[trigger]
                lasts(LOCK_DEFAULT_TIMEOUT_SECONDS, timeout) && self.waited_for(timeout, r),
            r is Err ==> is_lock_timeout(r->Err_0),
    ;
}

/// Whether `mutex` is what `Mutex::new` gave for `value`.
pub closed spec fn made_with<T>(value: T, mutex: Mutex<T>) -> bool {
    call_ensures(new_mutex::<T>, (value,), mutex)
}

/// A mutex that holds `value`.
pub fn new_lock<T>(value: T) -> (mutex: Mutex<T>)
    ensures
        made_with(value, mutex),
{
    new_mutex(value)
}

/// What a step that cannot fail gives when it is made under a lock, given
/// how the wait for the lock went: the error of the wait, or success.
pub open spec fn under_lock<T>(locking: Result<Locked<T>, AppError>, r: Result<(), AppError>) -> bool {
    match locking {
        Err(e) => r == Err::<(), AppError>(e),
        Ok(_) => r is Ok,
    }
}

/// Whether `acquired` is what `try_lock_for` of `mutex` gave for the time
/// `timeout`.
pub closed spec fn acquired_within<T>(
    mutex: &Mutex<T>,
    timeout: Duration,
    acquired: Option<Locked<T>>,
) -> bool {
    call_ensures(acquire::<T>, (mutex, timeout), acquired)
}

/// Whether `timeout` is what `Duration::from_secs` gave for `seconds`.
pub open spec fn lasts(seconds: u64, timeout: Duration) -> bool {
    call_ensures(Duration::from_secs, (seconds,), timeout)
}

/// The result that stands for what the mutex gave: the lock if there is
/// one, the error of a lock timeout if there is none.
pub open spec fn lock_result<T>(
    acquired: Option<Locked<T>>,
    r: Result<Locked<T>, AppError>,
) -> bool {
    match acquired {
        Some(locked) => r == Ok::<Locked<T>, AppError>(locked),
        None => r is Err && is_lock_timeout(r->Err_0),
    }
}

/// Whether `r` is the outcome of waiting for the lock of `mutex` for
/// `timeout`.
pub open spec fn locked_within<T>(
    mutex: &Mutex<T>,
    timeout: Duration,
    r: Result<Locked<T>, AppError>,
) -> bool {
    exists|acquired: Option<Locked<T>>| #[trigger]
        acquired_within(mutex, timeout, acquired) && lock_result(acquired, r)
}

/// Whether `r` is the outcome of waiting for the lock of `mutex` for the
/// default time.
pub open spec fn locked_by_default<T>(mutex: &Mutex<T>, r: Result<Locked<T>, AppError>) -> bool {
    exists|timeout: Duration| #[trigger]
        lasts(LOCK_DEFAULT_TIMEOUT_SECONDS, timeout) && mutex.waited_for(timeout, r)
}

/// Tells whether `e` is the error of a lock that was not acquired in time.
pub fn lock_timed_out(e: &AppError) -> (r: bool)
    ensures
        r == is_lock_timeout(*e),
{
    e.kind() == ErrorKind::Resource && same_text(e.message(), TIMEOUT_ERROR_MESSAGE)
}

/// Turns what `try_lock_for` of the mutex gave into a result: the lock if
/// there is one, the error of a lock timeout if there is none.
pub fn lock_outcome<'a, T>(acquired: Option<Locked<'a, T>>) -> (r: Result<Locked<'a, T>, AppError>)
    ensures
        r is Ok <==> acquired is Some,
        r is Ok ==> Some(r->Ok_0) == acquired,
        r is Err ==> is_lock_timeout(r->Err_0),
        lock_result(acquired, r),
{
    match acquired {
        Some(locked) => Ok(locked),
        None => Err(AppError::new(String::from_str(TIMEOUT_ERROR_MESSAGE))),
    }
}

impl<T> MutexLockTimeout<T> for Mutex<T> {
    open spec fn waited_for(&self, duration: Duration, r: Result<Locked<'_, T>, AppError>) -> bool {
        locked_within(self, duration, r)
    }

    /// Waits for the lock of this mutex for `duration`, and gives the lock
    /// or the error of a lock timeout, as `lock_outcome` turns what the
    /// mutex gave.
    fn try_lock_for(&self, duration: Duration) -> (r: Result<Locked<'_, T>, AppError>) {
        let acquired = acquire(self, duration);
        proof {
            assert(acquired_within(self, duration, acquired));
        }
        lock_outcome(acquired)
    }

    /// Waits for the lock of this mutex for the default time, as
    /// `try_lock_for` does.
    fn try_lock_default_duration(&self) -> (r: Result<Locked<'_, T>, AppError>) {
        let timeout = Duration::from_secs(LOCK_DEFAULT_TIMEOUT_SECONDS);
        proof {
            assert(lasts(LOCK_DEFAULT_TIMEOUT_SECONDS, timeout));
        }
        MutexLockTimeout::try_lock_for(self, timeout)
    }
}

} // verus!
