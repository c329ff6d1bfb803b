use vstd::prelude::*;
use std::sync::Arc;
use crate::local::app_error::{AppError, ErrorKind};
use crate::local::mutex_lock_timeout::{held, Locked};
use crate::streamer::bus::{is_no_session, no_session, Bus, Bus_};
use crate::streamer::engine::EventBus;
use crate::streamer::message::{encode, sendable, Message, MESSAGE_NAME};
use crate::streamer::structure::Structure;

verus! {

/// Puts the command into the form in which it is posted: a structure under
/// the pipe's name. Without a live session there is nothing to post on,
/// and the error says so; a command that the engine cannot hold gives an
/// error of class `Protocol`.
pub fn frame(session_live: bool, message: Message) -> (r: Result<Structure, AppError>)
    ensures
        r is Ok <==> session_live && sendable(message@, MESSAGE_NAME@),
        r is Ok ==> r->Ok_0@ == encode(message@, MESSAGE_NAME@),
        !session_live ==> r is Err && is_no_session(r->Err_0),
        session_live && r is Err ==> r->Err_0.spec_kind() == ErrorKind::Protocol,
{
    if !session_live {
        return Err(no_session());
    }
    message.to_structure(MESSAGE_NAME)
}

/// The way by which commands reach the worker: they are posted on the bus
/// that the worker polls, so that it sees them in one order with the
/// engine's own events.
pub trait Pipe: Send + Sync {
    /// Posts the command on the bus of the live session.
    fn send(&self, message: Message) -> Result<(), AppError>;
}

/// The pipe over the shared bus slot.
#[verifier::reject_recursive_types(B)]
pub struct Pipe_<B: EventBus + ?Sized> {
    bus: Arc<Bus_<Box<B>>>,
}

impl<B: EventBus + ?Sized> Pipe_<B> {
    /// The bus slot that this pipe posts through.
    pub closed spec fn slot(&self) -> Arc<Bus_<Box<B>>> {
        self.bus
    }
}

/// A pipe over that bus slot.
pub fn new_box<B: EventBus + ?Sized>(bus: Arc<Bus_<Box<B>>>) -> (pipe: Box<Pipe_<B>>)
    ensures
        pipe.slot() == bus,
{
    Box::new(Pipe_ { bus })
}

/// What a command gives on the slot that the lock guards: without a bus,
/// the error of no live session; a command that the engine cannot hold,
/// an error of class `Protocol`; else what the post of the command's
/// structure on the bus returns.
pub open spec fn posted<B: EventBus + ?Sized>(
    slot: Option<Box<B>>,
    message: Message,
    r: Result<(), AppError>,
) -> bool {
    match slot {
        None => r is Err && is_no_session(r->Err_0),
        Some(bus) => if sendable(message@, MESSAGE_NAME@) {
            exists|structure: Structure|
                structure@ == encode(message@, MESSAGE_NAME@) && #[trigger] call_ensures(
                    B::post,
                    (&*bus, structure),
                    r,
                )
        } else {
            r is Err && r->Err_0.spec_kind() == ErrorKind::Protocol
        },
    }
}

/// What `send` gives, given what `get_lock` of the slot gave: its error,
/// or what the command gives on the slot that the lock guards.
pub open spec fn send_outcome<B: EventBus + ?Sized>(
    got: Result<Locked<Option<Box<B>>>, AppError>,
    message: Message,
    r: Result<(), AppError>,
) -> bool {
    match got {
        Err(e) => r == Err::<(), AppError>(e),
        Ok(locked) => exists|slot: &Option<Box<B>>| #[trigger]
            held(&locked, slot) && posted(*slot, message, r),
    }
}

impl<B: EventBus + ?Sized> Pipe for Pipe_<B> {
    /// Asks the slot for its lock, and posts the command on the bus that
    /// the lock guards, as `send_outcome` says. A command that the engine
    /// cannot hold is never posted.
    fn send(&self, message: Message) -> (r: Result<(), AppError>)
        ensures
            exists|got: Result<Locked<Option<Box<B>>>, AppError>| #[trigger]
                self.slot().lock_got(got) && send_outcome(got, message, r),
            !sendable(message@, MESSAGE_NAME@) ==> r is Err,
    {
        let got = self.bus.get_lock();
        proof {
            assert(self.slot().lock_got(got));
        }
        let bus_lock = match got {
            Ok(locked) => locked,
            Err(e) => {
                return Err(e);
            },
        };
        let slot = bus_lock.get();
        let structure = match frame(slot.is_some(), message) {
            Ok(structure) => structure,
            Err(e) => {
                proof {
                    assert(posted(*slot, message, Err::<(), AppError>(e)));
                }
                return Err(e);
            },
        };
        match slot {
            Some(bus) => {
                let r = bus.post(structure);
                proof {
                    assert(call_ensures(
                        B::post,
                        (&**bus, structure),
                        r,
                    ));
                    assert(posted(*slot, message, r));
                }
                r
            },
            None => vstd::pervasive::unreached(),
        }
    }
}

} // verus!
