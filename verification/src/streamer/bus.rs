use vstd::prelude::*;
use vstd::string::StringExecFns;
use std::sync::Arc;
use parking_lot::Mutex;
use crate::local::app_error::{AppError, ErrorKind};
use crate::local::mutex_lock_timeout::{
    held, is_lock_timeout, locked_by_default, made_with, new_lock, Locked, MutexLockTimeout,
};

verus! {

/// The message of the error that a full slot gives to a second bus.
pub const ALREADY_ASSIGNED_MESSAGE: &'static str =
    "The GStreamer bus is already assigned but it shouldn't. Force reassign.";

/// The message of the error that an empty slot gives when a bus is taken.
pub const EMPTY_SLOT_MESSAGE: &'static str = "Cannot drop the Gstreamer bus because it is null.";

/// Whether `e` is the error that a full slot gives to a second bus.
pub open spec fn is_already_assigned(e: AppError) -> bool {
    e.spec_kind() == ErrorKind::Resource && e.spec_message() == ALREADY_ASSIGNED_MESSAGE@
}

/// Whether `e` is the error that an empty slot gives when a bus is taken.
pub open spec fn is_empty_slot(e: AppError) -> bool {
    e.spec_kind() == ErrorKind::Resource && e.spec_message() == EMPTY_SLOT_MESSAGE@
}

/// What a slot answers to a bus that is offered: an empty one takes it, a
/// full one gives the error of a bus already assigned.
pub open spec fn stored<B>(slot: Option<B>, r: Result<(), AppError>) -> bool {
    match slot {
        None => r is Ok,
        Some(_) => r is Err && is_already_assigned(r->Err_0),
    }
}

/// What a slot answers when its bus is asked for: a full one gives the
/// bus, an empty one the error of an empty slot.
pub open spec fn released<B>(slot: Option<B>, r: Result<B, AppError>) -> bool {
    match slot {
        Some(bus) => r == Ok::<B, AppError>(bus),
        None => r is Err && is_empty_slot(r->Err_0),
    }
}

/// Puts the bus of a new session into the slot. The slot must be empty: a
/// bus that is already there stays, the offered one is dropped, and the
/// error is of class `Resource`.
pub fn store<B>(slot: &mut Option<B>, bus: B) -> (r: Result<(), AppError>)
    ensures
        stored(*old(slot), r),
        *old(slot) is None ==> r is Ok && *final(slot) == Some(bus),
        *old(slot) is Some ==> r is Err && r->Err_0.spec_kind() == ErrorKind::Resource,
        *old(slot) is Some ==> *final(slot) == *old(slot),
{
    if slot.is_some() {
        return Err(AppError::new(String::from_str(ALREADY_ASSIGNED_MESSAGE)));
    }
    *slot = Some(bus);
    Ok(())
}

/// Takes the bus out of the slot and leaves the slot empty. On an empty
/// slot the error is of class `Resource`, so that a second release after a
/// first fails and does no harm.
pub fn release<B>(slot: &mut Option<B>) -> (r: Result<B, AppError>)
    ensures
        released(*old(slot), r),
        *final(slot) == None::<B>,
        *old(slot) is Some ==> r == Ok::<B, AppError>((*old(slot))->Some_0),
        *old(slot) is None ==> r is Err && r->Err_0.spec_kind() == ErrorKind::Resource,
{
    match slot.take() {
        Some(bus) => Ok(bus),
        None => Err(AppError::new(String::from_str(EMPTY_SLOT_MESSAGE))),
    }
}

/// The message of the error that is given when no session is live.
pub const NO_SESSION_MESSAGE: &'static str = "The bus is null or the thread is not started.";

/// Whether `e` is the error that is given when no session is live.
pub open spec fn is_no_session(e: AppError) -> bool {
    e.spec_kind() == ErrorKind::Resource && e.spec_message() == NO_SESSION_MESSAGE@
}

/// The error that is given when no session is live.
pub fn no_session() -> (e: AppError)
    ensures
        is_no_session(e),
{
    AppError::new(String::from_str(NO_SESSION_MESSAGE))
}

/// Tells whether the slot holds a bus: a slot that holds none gives the
/// error of no live session.
pub fn check_occupied<B>(slot: &Option<B>) -> (r: Result<(), AppError>)
    ensures
        r is Ok <==> slot is Some,
        r is Err ==> is_no_session(r->Err_0),
{
    if slot.is_some() {
        Ok(())
    } else {
        Err(no_session())
    }
}

/// The slot for the bus of the live session, shared between the worker,
/// which fills and empties it, and the callers that post on the bus.
pub trait Bus<B> {
    /// Puts `bus` into the slot, as `store` does, once the slot's lock is
    /// held. An error is of class `Resource`: the lock was not acquired in
    /// time, or the slot was full.
    fn set(&self, bus: B) -> (r: Result<(), AppError>)
        ensures
            r is Err ==> r->Err_0.spec_kind() == ErrorKind::Resource,
    ;

    /// The slot under its lock, if the lock was acquired in time and the
    /// slot holds a bus, as `check_occupied` tells. An error is that of a
    /// lock timeout or that of no live session.
    fn get_lock(&self) -> (r: Result<Locked<'_, Option<B>>, AppError>)
        ensures
            r is Err ==> is_lock_timeout(r->Err_0) || is_no_session(r->Err_0),
    ;

    /// Takes the bus out of the slot, as `release` does, once the slot's
    /// lock is held. An error is of class `Resource`: the lock was not
    /// acquired in time, or the slot was empty.
    fn take(&self) -> (r: Result<B, AppError>)
        ensures
            r is Err ==> r->Err_0.spec_kind() == ErrorKind::Resource,
    ;
}

/// The slot behind a mutex of `parking_lot`.
#[verifier::reject_recursive_types(B)]
pub struct Bus_<B>(Mutex<Option<B>>);

/// What `set` gives, given how the wait for the slot's lock went: the
/// error of the wait, or what the slot under the lock answers.
pub open spec fn set_outcome<B>(
    locking: Result<Locked<Option<B>>, AppError>,
    r: Result<(), AppError>,
) -> bool {
    match locking {
        Err(e) => r == Err::<(), AppError>(e),
        Ok(_) => exists|slot: Option<B>| #[trigger] stored(slot, r),
    }
}

/// What `take` gives, given how the wait for the slot's lock went: the
/// error of the wait, or what the slot under the lock answers.
pub open spec fn take_outcome<B>(
    locking: Result<Locked<Option<B>>, AppError>,
    r: Result<B, AppError>,
) -> bool {
    match locking {
        Err(e) => r == Err::<B, AppError>(e),
        Ok(_) => exists|slot: Option<B>| #[trigger] released(slot, r),
    }
}

/// What `get_lock` gives, given how the wait for the slot's lock went: the
/// error of the wait; or the lock, if what it guards is a bus; or the
/// error of no live session.
pub open spec fn get_lock_outcome<B>(
    locking: Result<Locked<Option<B>>, AppError>,
    r: Result<Locked<Option<B>>, AppError>,
) -> bool {
    match locking {
        Err(e) => r == Err::<Locked<Option<B>>, AppError>(e),
        Ok(locked) => exists|slot: &Option<B>| #[trigger]
            held(&locked, slot) && match *slot {
                Some(_) => r == Ok::<Locked<Option<B>>, AppError>(locked),
                None => r is Err && is_no_session(r->Err_0),
            },
    }
}

impl<B> Bus_<B> {
    /// The mutex that guards the slot.
    pub closed spec fn mutex(&self) -> Mutex<Option<B>> {
        self.0
    }

    /// Whether `got` is what `get_lock` of this slot gives: the outcome of
    /// the wait for its lock, taken as `get_lock_outcome` says.
    pub open spec fn lock_got(&self, got: Result<Locked<Option<B>>, AppError>) -> bool {
        exists|locking: Result<Locked<Option<B>>, AppError>| #[trigger]
            locked_by_default(&self.mutex(), locking) && get_lock_outcome(locking, got)
    }

    /// Whether `set` is what `set` of this slot gives.
    pub open spec fn was_set(&self, set: Result<(), AppError>) -> bool {
        exists|locking: Result<Locked<Option<B>>, AppError>| #[trigger]
            locked_by_default(&self.mutex(), locking) && set_outcome(locking, set)
    }

    /// Whether `taken` is what `take` of this slot gives.
    pub open spec fn was_taken(&self, taken: Result<B, AppError>) -> bool {
        exists|locking: Result<Locked<Option<B>>, AppError>| #[trigger]
            locked_by_default(&self.mutex(), locking) && take_outcome(locking, taken)
    }
}

/// An empty slot, to be shared: a slot behind a mutex that was made with
/// no bus in it.
pub fn new_arc<B>() -> (bus: Arc<Bus_<B>>)
    ensures
        made_with(None::<B>, bus.mutex()),
{
    Arc::new(Bus_(new_lock(None)))
}

impl<B> Bus<B> for Bus_<B> {
    /// Waits for the slot's lock for the default time, and puts `bus` into
    /// the slot as `store` does.
    fn set(&self, bus: B) -> (r: Result<(), AppError>)
        ensures
            self.was_set(r),
    {
        let locking = self.0.try_lock_default_duration();
        proof {
            assert(locked_by_default(&self.mutex(), locking));
        }
        match locking {
            Ok(mut bus_lock) => {
                let slot = bus_lock.get_mut();
                let ghost before = *slot;
                let r = store(slot, bus);
                proof {
                    assert(stored(before, r));
                }
                r
            },
            Err(e) => Err(e),
        }
    }

    /// Waits for the slot's lock for the default time, and hands the lock
    /// out if the slot holds a bus, as `check_occupied` tells.
    fn get_lock(&self) -> (r: Result<Locked<'_, Option<B>>, AppError>)
        ensures
            self.lock_got(r),
    {
        let locking = self.0.try_lock_default_duration();
        proof {
            assert(locked_by_default(&self.mutex(), locking));
        }
        match locking {
            Ok(bus_lock) => {
                let slot = bus_lock.get();
                match check_occupied(slot) {
                    Ok(()) => Ok(bus_lock),
                    Err(e) => Err(e),
                }
            },
            Err(e) => Err(e),
        }
    }

    /// Waits for the slot's lock for the default time, and takes the bus
    /// out of the slot as `release` does.
    fn take(&self) -> (r: Result<B, AppError>)
        ensures
            self.was_taken(r),
    {
        let locking = self.0.try_lock_default_duration();
        proof {
            assert(locked_by_default(&self.mutex(), locking));
        }
        match locking {
            Ok(mut bus_lock) => {
                let slot = bus_lock.get_mut();
                let ghost before = *slot;
                let r = release(slot);
                proof {
                    assert(released(before, r));
                }
                r
            },
            Err(e) => Err(e),
        }
    }
}

} // verus!
