use std::time::Duration;

use parking_lot::Mutex;
use playback::local::app_error::{AppError, ErrorKind};
use playback::local::mutex_lock_timeout::{
    lock_outcome, lock_timed_out, new_lock, MutexLockTimeout, LOCK_DEFAULT_TIMEOUT_SECONDS,
    TIMEOUT_ERROR_MESSAGE,
};

#[test]
fn test_no_timeout() {
    let element = Mutex::new(1_i8);

    let result = *element.try_lock_default_duration().unwrap().get();

    assert_eq!(result, 1);
}

#[test]
fn test_timeout() {
    let element = Mutex::new(1_i8);
    let duration = Duration::from_secs(1);

    let _lock = element.lock();

    let result_res = MutexLockTimeout::try_lock_for(&element, duration);

    assert!(result_res.is_err());
}

#[test]
fn timeout_error_is_a_resource_error() {
    let element = Mutex::new(1_i8);
    let _lock = element.lock();

    let error = match MutexLockTimeout::try_lock_for(&element, Duration::from_millis(10)) {
        Ok(_) => panic!("the lock is held"),
        Err(error) => error,
    };

    assert_eq!(error.kind(), ErrorKind::Resource);
    assert_eq!(error.message(), TIMEOUT_ERROR_MESSAGE);
    assert_eq!(error.message(), "Lock timeout.");
}

#[test]
fn lock_gives_what_the_mutex_holds_and_takes_a_change() {
    let element = Mutex::new(7_u32);

    {
        let mut locked = element.try_lock_default_duration().unwrap();
        assert_eq!(*locked.get(), 7);
        *locked.get_mut() = 8;
    }

    assert_eq!(*element.try_lock_default_duration().unwrap().get(), 8);
}

#[test]
fn lock_is_given_back_when_dropped() {
    let element = Mutex::new(0_u8);

    drop(element.try_lock_default_duration().unwrap());

    assert!(MutexLockTimeout::try_lock_for(&element, Duration::from_millis(10)).is_ok());
}

#[test]
fn default_timeout_is_five_seconds() {
    assert_eq!(LOCK_DEFAULT_TIMEOUT_SECONDS, 5);
}

#[test]
fn lock_timed_out_tells_the_timeout_from_other_errors() {
    let element = Mutex::new(0_u8);
    let _lock = element.lock();
    let error = match MutexLockTimeout::try_lock_for(&element, Duration::from_millis(10)) {
        Ok(_) => panic!("the lock is held"),
        Err(error) => error,
    };

    assert!(lock_timed_out(&error));
    assert!(!lock_timed_out(&AppError::new("Lock timeout".to_owned())));
    assert!(!lock_timed_out(&AppError::with_kind(
        ErrorKind::Timeout,
        "Lock timeout.".to_owned()
    )));
}

#[test]
fn lock_outcome_of_no_lock_is_the_timeout_error() {
    let error = match lock_outcome::<u8>(None) {
        Ok(_) => panic!("there is no lock"),
        Err(error) => error,
    };

    assert!(lock_timed_out(&error));
}

#[test]
fn lock_outcome_of_a_lock_is_the_lock() {
    let element = Mutex::new(3_u8);
    let locked = element.try_lock_default_duration().unwrap();

    let again = lock_outcome(Some(locked)).unwrap();

    assert_eq!(*again.get(), 3);
}

#[test]
fn new_lock_holds_what_it_was_made_with() {
    let element = new_lock(41_u32);

    assert_eq!(*element.try_lock_default_duration().unwrap().get(), 41);
}

#[test]
fn new_lock_is_not_locked() {
    let element = new_lock(String::from("free"));

    assert!(MutexLockTimeout::try_lock_for(&element, Duration::from_millis(10)).is_ok());
}
