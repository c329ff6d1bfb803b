use vstd::prelude::*;
use std::sync::Arc;
use parking_lot::Mutex;
use crate::local::app_error::AppError;
use crate::local::mutex_lock_timeout::{locked_by_default, Locked, MutexLockTimeout};
use crate::streamer;
use crate::streamer::coordinator::{
    running, spec_end, spec_play, spec_tell, well_formed, Coordinator, CoordinatorView, Directive,
    EndPlan,
};
use crate::streamer::message::{Message, MessageView};

verus! {

/// What the user interface calls. No call fails the caller: an error that
/// comes back is for the log, and the player goes on.
pub trait Front: Send + Sync {
    fn play(&self, uri: &str) -> Result<(), AppError>;

    fn pause(&self) -> Result<(), AppError>;

    fn stop(&self) -> Result<(), AppError>;

    fn end(&self) -> Result<(), AppError>;

    fn is_running(&self) -> Result<bool, AppError>;
}

/// The front over a worker thread and a pipe. It asks the coordinator
/// under its lock, lets the lock go, and then does what it was told.
pub struct Front_<S: streamer::front::Front + ?Sized, P: streamer::pipe::Pipe + ?Sized> {
    coordinator: Arc<Mutex<Coordinator>>,
    streamer_front: Box<S>,
    streamer_pipe: Box<P>,
}

/// A front over that coordinator, that worker thread and that pipe.
pub fn new_box<S: streamer::front::Front + ?Sized, P: streamer::pipe::Pipe + ?Sized>(
    coordinator: Arc<Mutex<Coordinator>>,
    streamer_front: Box<S>,
    streamer_pipe: Box<P>,
) -> (front: Box<Front_<S, P>>)
    ensures
        front.coordinator() == coordinator,
        front.streamer_front() == streamer_front,
        front.streamer_pipe() == streamer_pipe,
{
    Box::new(Front_ { coordinator, streamer_front, streamer_pipe })
}

impl<S: streamer::front::Front + ?Sized, P: streamer::pipe::Pipe + ?Sized> Front_<S, P> {
    /// The coordinator that this front asks.
    pub closed spec fn coordinator(&self) -> Arc<Mutex<Coordinator>> {
        self.coordinator
    }

    /// The worker thread that this front starts and waits for.
    pub closed spec fn streamer_front(&self) -> Box<S> {
        self.streamer_front
    }

    /// The pipe through which this front sends.
    pub closed spec fn streamer_pipe(&self) -> Box<P> {
        self.streamer_pipe
    }

    /// Whether `finished` is what the worker thread says of itself.
    pub open spec fn told_finished(&self, finished: bool) -> bool {
        call_ensures(S::is_finished, (&*self.streamer_front(),), finished)
    }

    /// Whether `locking` is the outcome of the wait for the coordinator's
    /// lock, for the default time.
    pub open spec fn coordinator_locked(&self, locking: Result<Locked<Coordinator>, AppError>) -> bool {
        locked_by_default(&*self.coordinator(), locking)
    }

    /// What carrying out a directive gives: nothing to do is a success;
    /// a command is sent through the pipe and a worker is started through
    /// the worker thread, and what comes back is what they return.
    pub open spec fn carried(&self, directive: Directive, r: Result<(), AppError>) -> bool {
        match directive {
            Directive::Nothing => r is Ok,
            Directive::Send(message) => call_ensures(
                P::send,
                (&*self.streamer_pipe(), message),
                r,
            ),
            Directive::Spawn(text) => exists|uri: &str|
                uri@ == text@ && #[trigger] call_ensures(
                    S::start,
                    (&*self.streamer_front(), uri),
                    r,
                ),
        }
    }

    /// What `play` gives, given what the worker thread said and how the
    /// wait for the lock went: the error of the wait, or what carrying out
    /// the coordinator's decision gives, in the state that the lock
    /// guarded.
    pub open spec fn played(
        &self,
        uri: Seq<char>,
        finished: bool,
        locking: Result<Locked<Coordinator>, AppError>,
        r: Result<(), AppError>,
    ) -> bool {
        match locking {
            Err(e) => r == Err::<(), AppError>(e),
            Ok(_) => exists|c: CoordinatorView, directive: Directive|
                #![trigger well_formed(c), self.carried(directive, r)]
                well_formed(c) && directive@ == spec_play(c, uri, finished).1 && self.carried(
                    directive,
                    r,
                ),
        }
    }

    /// What `pause` and `stop` give, as `played` says of `play`.
    pub open spec fn told(
        &self,
        command: MessageView,
        finished: bool,
        locking: Result<Locked<Coordinator>, AppError>,
        r: Result<(), AppError>,
    ) -> bool {
        match locking {
            Err(e) => r == Err::<(), AppError>(e),
            Ok(_) => exists|c: CoordinatorView, directive: Directive|
                #![trigger well_formed(c), self.carried(directive, r)]
                well_formed(c) && directive@ == spec_tell(c, command, finished).1 && self.carried(
                    directive,
                    r,
                ),
        }
    }

    /// What the send of `Shutdown` gives under a plan: what the pipe
    /// returns, if the plan asks for the send; else success.
    pub open spec fn shutdown_sent(&self, plan: EndPlan, sent: Result<(), AppError>) -> bool {
        if plan.send_shutdown {
            call_ensures(P::send, (&*self.streamer_pipe(), Message::Shutdown), sent)
        } else {
            sent is Ok
        }
    }

    /// What the wait for the worker gives under a plan: what the worker
    /// thread returns for the plan's time, if the plan asks for the wait;
    /// else success.
    pub open spec fn waited(&self, plan: EndPlan, joined: Result<(), AppError>) -> bool {
        if plan.join {
            call_ensures(
                S::wait_until_end,
                (&*self.streamer_front(), plan.timeout_seconds),
                joined,
            )
        } else {
            joined is Ok
        }
    }

    /// What `end` gives: the error of the wait for the lock, or what
    /// `settled` makes of the send and of the wait for the worker under
    /// the coordinator's plan, in the state that the lock guarded.
    pub open spec fn ended(
        &self,
        finished: bool,
        locking: Result<Locked<Coordinator>, AppError>,
        r: Result<(), AppError>,
    ) -> bool {
        match locking {
            Err(e) => r == Err::<(), AppError>(e),
            Ok(_) => exists|c: CoordinatorView, sent: Result<(), AppError>, joined: Result<(), AppError>|
                #![trigger well_formed(c), settled(sent, joined)]
                well_formed(c) && self.shutdown_sent(spec_end(c, finished).1, sent) && self.waited(
                    spec_end(c, finished).1,
                    joined,
                ) && r == settled(sent, joined),
        }
    }

    /// What `is_running` gives: the error of the wait for the lock, or
    /// whether a worker is running in the state that the lock guarded.
    pub open spec fn looked(
        &self,
        finished: bool,
        locking: Result<Locked<Coordinator>, AppError>,
        r: Result<bool, AppError>,
    ) -> bool {
        match locking {
            Err(e) => r == Err::<bool, AppError>(e),
            Ok(_) => exists|c: CoordinatorView| #[trigger]
                well_formed(c) && r == Ok::<bool, AppError>(running(c, finished)),
        }
    }

    /// Does what the coordinator decided, as `carried` says. A worker that
    /// could not be started is taken off the coordinator's books.
    fn carry_out(&self, directive: Directive) -> (r: Result<(), AppError>)
        ensures
            self.carried(directive, r),
    {
        match directive {
            Directive::Nothing => Ok(()),
            Directive::Send(message) => self.streamer_pipe.send(message),
            Directive::Spawn(uri) => {
                let text = uri.as_str();
                let started = self.streamer_front.start(text);
                proof {
                    assert(call_ensures(S::start, (&*self.streamer_front(), text), started));
                }
                if started.is_err() {
                    // The worker never came to life: take it off the books.
                    match self.coordinator.try_lock_default_duration() {
                        Ok(mut locked) => {
                            locked.get_mut().is_running(true);
                        },
                        Err(_) => {},
                    }
                }
                started
            },
        }
    }
}

impl<S: streamer::front::Front + ?Sized, P: streamer::pipe::Pipe + ?Sized> Front for Front_<S, P> {
    /// Asks the worker thread whether it has finished, asks the
    /// coordinator under its lock what to do, and does it: a worker is
    /// started on `uri`, or `Next` is sent to the one that runs, or
    /// nothing is done, as `played` says.
    fn play(&self, uri: &str) -> (r: Result<(), AppError>)
        ensures
            exists|finished: bool, locking: Result<Locked<Coordinator>, AppError>|
                #![trigger self.told_finished(finished), self.coordinator_locked(locking)]
                self.told_finished(finished) && self.coordinator_locked(locking) && self.played(
                    uri@,
                    finished,
                    locking,
                    r,
                ),
    {
        let finished = self.streamer_front.is_finished();
        let locking = self.coordinator.try_lock_default_duration();
        proof {
            assert(self.told_finished(finished));
            assert(self.coordinator_locked(locking));
        }
        let directive = match locking {
            Ok(mut locked) => {
                let coordinator = locked.get_mut();
                let ghost before = coordinator@;
                let directive = coordinator.play(uri, finished);
                proof {
                    assert(well_formed(before));
                    assert(directive@ == spec_play(before, uri@, finished).1);
                }
                directive
            },
            Err(e) => {
                return Err(e);
            },
        };
        let r = self.carry_out(directive);
        proof {
            assert(self.carried(directive, r));
        }
        r
    }

    /// Sends `Pause` to a running worker and does nothing without one, as
    /// `told` says.
    fn pause(&self) -> (r: Result<(), AppError>)
        ensures
            exists|finished: bool, locking: Result<Locked<Coordinator>, AppError>|
                #![trigger self.told_finished(finished), self.coordinator_locked(locking)]
                self.told_finished(finished) && self.coordinator_locked(locking) && self.told(
                    MessageView::Pause,
                    finished,
                    locking,
                    r,
                ),
    {
        let finished = self.streamer_front.is_finished();
        let locking = self.coordinator.try_lock_default_duration();
        proof {
            assert(self.told_finished(finished));
            assert(self.coordinator_locked(locking));
        }
        let directive = match locking {
            Ok(mut locked) => {
                let coordinator = locked.get_mut();
                let ghost before = coordinator@;
                let directive = coordinator.pause(finished);
                proof {
                    assert(well_formed(before));
                    assert(directive@ == spec_tell(before, MessageView::Pause, finished).1);
                }
                directive
            },
            Err(e) => {
                return Err(e);
            },
        };
        let r = self.carry_out(directive);
        proof {
            assert(self.carried(directive, r));
        }
        r
    }

    /// Sends `Stop` to a running worker and does nothing without one, as
    /// `told` says.
    fn stop(&self) -> (r: Result<(), AppError>)
        ensures
            exists|finished: bool, locking: Result<Locked<Coordinator>, AppError>|
                #![trigger self.told_finished(finished), self.coordinator_locked(locking)]
                self.told_finished(finished) && self.coordinator_locked(locking) && self.told(
                    MessageView::Stop,
                    finished,
                    locking,
                    r,
                ),
    {
        let finished = self.streamer_front.is_finished();
        let locking = self.coordinator.try_lock_default_duration();
        proof {
            assert(self.told_finished(finished));
            assert(self.coordinator_locked(locking));
        }
        let directive = match locking {
            Ok(mut locked) => {
                let coordinator = locked.get_mut();
                let ghost before = coordinator@;
                let directive = coordinator.stop(finished);
                proof {
                    assert(well_formed(before));
                    assert(directive@ == spec_tell(before, MessageView::Stop, finished).1);
                }
                directive
            },
            Err(e) => {
                return Err(e);
            },
        };
        let r = self.carry_out(directive);
        proof {
            assert(self.carried(directive, r));
        }
        r
    }

    /// Ends the coordinator; sends `Shutdown` to a running worker and waits
    /// for it, for the plan's time at most, as `ended` says. Of the two
    /// errors that may come of this, that of the wait is handed back
    /// before that of the send.
    fn end(&self) -> (r: Result<(), AppError>)
        ensures
            exists|finished: bool, locking: Result<Locked<Coordinator>, AppError>|
                #![trigger self.told_finished(finished), self.coordinator_locked(locking)]
                self.told_finished(finished) && self.coordinator_locked(locking) && self.ended(
                    finished,
                    locking,
                    r,
                ),
    {
        let finished = self.streamer_front.is_finished();
        let locking = self.coordinator.try_lock_default_duration();
        proof {
            assert(self.told_finished(finished));
            assert(self.coordinator_locked(locking));
        }
        let ghost before: CoordinatorView;
        let plan = match locking {
            Ok(mut locked) => {
                let coordinator = locked.get_mut();
                proof {
                    before = coordinator@;
                }
                coordinator.end(finished)
            },
            Err(e) => {
                return Err(e);
            },
        };
        let sent = if plan.send_shutdown {
            self.streamer_pipe.send(Message::Shutdown)
        } else {
            Ok(())
        };
        let joined = if plan.join {
            self.streamer_front.wait_until_end(plan.timeout_seconds)
        } else {
            Ok(())
        };
        let r = settle(sent, joined);
        proof {
            assert(well_formed(before));
            assert(plan == spec_end(before, finished).1);
            assert(self.shutdown_sent(plan, sent));
            assert(self.waited(plan, joined));
            assert(r == settled(sent, joined));
        }
        r
    }

    /// Whether a worker is running, as `looked` says; one that has
    /// finished is taken off the coordinator's books.
    fn is_running(&self) -> (r: Result<bool, AppError>)
        ensures
            exists|finished: bool, locking: Result<Locked<Coordinator>, AppError>|
                #![trigger self.told_finished(finished), self.coordinator_locked(locking)]
                self.told_finished(finished) && self.coordinator_locked(locking) && self.looked(
                    finished,
                    locking,
                    r,
                ),
    {
        let finished = self.streamer_front.is_finished();
        let locking = self.coordinator.try_lock_default_duration();
        proof {
            assert(self.told_finished(finished));
            assert(self.coordinator_locked(locking));
        }
        match locking {
            Ok(mut locked) => {
                let coordinator = locked.get_mut();
                let ghost before = coordinator@;
                let running = coordinator.is_running(finished);
                proof {
                    assert(well_formed(before));
                }
                Ok(running)
            },
            Err(e) => Err(e),
        }
    }
}

/// What `settle` makes of how the send of `Shutdown` and the wait for the
/// worker went: the error of the wait if there is one, else what the send
/// gave.
pub open spec fn settled(sent: Result<(), AppError>, joined: Result<(), AppError>) -> Result<
    (),
    AppError,
> {
    if joined is Err {
        joined
    } else {
        sent
    }
}

/// What `end` hands back, given how the send of `Shutdown` and the wait
/// for the worker went: the error of the wait if there is one, else that
/// of the send, else success.
pub fn settle(sent: Result<(), AppError>, joined: Result<(), AppError>) -> (r: Result<
    (),
    AppError,
>)
    ensures
        r == settled(sent, joined),
        r is Ok <==> sent is Ok && joined is Ok,
{
    match joined {
        Err(e) => Err(e),
        Ok(()) => sent,
    }
}

} // verus!
