use vstd::prelude::*;
use std::sync::Arc;
use parking_lot::Mutex;
use crate::local::app_error::AppError;
use crate::local::mutex_lock_timeout::{
    is_lock_timeout, locked_by_default, made_with, new_lock, under_lock, Locked,
    MutexLockTimeout,
};
use crate::local::text::same_text;
use crate::streamer::message::{Message, MessageView, Uri};
use crate::streamer::streamer_loop::{Exit, ExitView};

verus! {

/// How long `end` lets the caller wait for the worker, in seconds.
pub const STOP_TIMEOUT_SECONDS: u64 = 5;

/// Where the one playback session stands.
#[derive(Debug)]
pub enum SessionState {
    /// No pipeline is live.
    Idle,
    /// A pipeline plays that URI.
    Active(Uri),
    /// The worker has left its pipeline and is about to build one for that
    /// URI.
    PendingNext(Uri),
    /// The worker was shut down; no session starts any more.
    Ended,
}

pub enum SessionView {
    Idle,
    Active(Seq<char>),
    PendingNext(Seq<char>),
    Ended,
}

impl View for SessionState {
    type V = SessionView;

    open spec fn view(&self) -> SessionView {
        match self {
            SessionState::Idle => SessionView::Idle,
            SessionState::Active(uri) => SessionView::Active(uri@),
            SessionState::PendingNext(uri) => SessionView::PendingNext(uri@),
            SessionState::Ended => SessionView::Ended,
        }
    }
}

/// What the caller of the coordinator is to do.
#[derive(Debug)]
pub enum Directive {
    /// Nothing: the command does not apply.
    Nothing,
    /// Start the worker thread on that URI.
    Spawn(Uri),
    /// Hand that command to the message pipe.
    Send(Message),
}

pub enum DirectiveView {
    Nothing,
    Spawn(Seq<char>),
    Send(MessageView),
}

impl View for Directive {
    type V = DirectiveView;

    open spec fn view(&self) -> DirectiveView {
        match self {
            Directive::Nothing => DirectiveView::Nothing,
            Directive::Spawn(uri) => DirectiveView::Spawn(uri@),
            Directive::Send(message) => DirectiveView::Send(message@),
        }
    }
}

/// What `end` asks of its caller: whether to send `Shutdown`, whether to
/// wait for the worker, and for how many seconds at most.
#[derive(Clone, Copy, Debug, PartialEq, Eq, Structural)]
pub struct EndPlan {
    pub send_shutdown: bool,
    pub join: bool,
    pub timeout_seconds: u64,
}

/// The coordinator as contracts see it: the session, and whether a worker
/// thread is tracked.
pub struct CoordinatorView {
    pub session: SessionView,
    pub worker: bool,
}

/// What holds of every coordinator: a live session has a tracked worker,
/// and after the end none is tracked.
pub open spec fn well_formed(c: CoordinatorView) -> bool {
    &&& (c.session is Active || c.session is PendingNext) ==> c.worker
    &&& c.session is Ended ==> !c.worker
}

/// The coordinator before any command.
pub open spec fn initial() -> CoordinatorView {
    CoordinatorView { session: SessionView::Idle, worker: false }
}

/// The coordinator after it has looked at its worker: a worker that has
/// finished is no longer tracked, and its session, if it left one, is over.
pub open spec fn reaped(c: CoordinatorView, finished: bool) -> CoordinatorView {
    if c.worker && finished {
        CoordinatorView { session: SessionView::Idle, worker: false }
    } else {
        c
    }
}

/// Whether a worker is running: one is tracked and has not finished.
pub open spec fn running(c: CoordinatorView, finished: bool) -> bool {
    c.worker && !finished
}

/// `play`: after the end nothing; with a running worker `Next` is sent to
/// it; else a worker is started and the session is active on the URI.
pub open spec fn spec_play(c: CoordinatorView, uri: Seq<char>, finished: bool) -> (
    CoordinatorView,
    DirectiveView,
) {
    let c1 = reaped(c, finished);
    if c1.session is Ended {
        (c1, DirectiveView::Nothing)
    } else if c1.worker {
        (c1, DirectiveView::Send(MessageView::Next(uri)))
    } else {
        (
            CoordinatorView { session: SessionView::Active(uri), worker: true },
            DirectiveView::Spawn(uri),
        )
    }
}

/// `pause` and `stop`: the command is sent if a worker is running, and
/// else nothing happens.
pub open spec fn spec_tell(c: CoordinatorView, command: MessageView, finished: bool) -> (
    CoordinatorView,
    DirectiveView,
) {
    let c1 = reaped(c, finished);
    if c1.worker {
        (c1, DirectiveView::Send(command))
    } else {
        (c1, DirectiveView::Nothing)
    }
}

/// `end`: a running worker is sent `Shutdown` and waited for, for a
/// bounded time; whatever comes of that, the coordinator has ended.
pub open spec fn spec_end(c: CoordinatorView, finished: bool) -> (CoordinatorView, EndPlan) {
    let c1 = reaped(c, finished);
    (
        CoordinatorView { session: SessionView::Ended, worker: false },
        EndPlan {
            send_shutdown: c1.worker,
            join: c1.worker,
            timeout_seconds: STOP_TIMEOUT_SECONDS,
        },
    )
}

/// The worker reports that its session is over: a live session becomes
/// idle after `Stop`, pending after `Next`, ended after `Shutdown`. A
/// report that finds no live session changes nothing.
pub open spec fn spec_session_ended(c: CoordinatorView, exit: ExitView) -> CoordinatorView {
    if c.session is Active || c.session is PendingNext {
        match exit {
            ExitView::Stop => CoordinatorView { session: SessionView::Idle, ..c },
            ExitView::Next(uri) => CoordinatorView { session: SessionView::PendingNext(uri), ..c },
            ExitView::Shutdown => CoordinatorView { session: SessionView::Ended, worker: false },
        }
    } else {
        c
    }
}

/// The worker reports that it has built the pipeline for the URI that was
/// pending: the session is active on it. Any other report changes nothing.
pub open spec fn spec_relaunched(c: CoordinatorView, uri: Seq<char>) -> CoordinatorView {
    if c.session == SessionView::PendingNext(uri) {
        CoordinatorView { session: SessionView::Active(uri), ..c }
    } else {
        c
    }
}

/// The coordinator of the one playback session: it decides, for each
/// command of the user interface, whether a worker is started, told, or
/// left alone. It does none of this itself; its caller does, and tells it
/// what the tracked thread handle says.
#[derive(Debug)]
pub struct Coordinator {
    session: SessionState,
    worker: bool,
}

impl View for Coordinator {
    type V = CoordinatorView;

    closed spec fn view(&self) -> CoordinatorView {
        CoordinatorView { session: self.session@, worker: self.worker }
    }
}

impl Coordinator {
    #[verifier::type_invariant]
    spec fn inv(self) -> bool {
        well_formed(self@)
    }

    /// A coordinator with no session and no worker.
    pub fn new() -> (c: Self)
        ensures
            c@ == initial(),
    {
        Coordinator { session: SessionState::Idle, worker: false }
    }

    /// Where the session stands. The coordinator is well formed, as
    /// every coordinator is.
    pub fn session(&self) -> (s: &SessionState)
        ensures
            s@ == self@.session,
            well_formed(self@),
    {
        proof {
            use_type_invariant(self);
        }
        &self.session
    }

    /// Whether the coordinator has ended.
    pub fn is_ended(&self) -> (r: bool)
        ensures
            r == (self@.session is Ended),
    {
        match self.session {
            SessionState::Ended => true,
            _ => false,
        }
    }

    fn reap(&mut self, finished: bool)
        ensures
            final(self)@ == reaped(old(self)@, finished),
    {
        proof {
            use_type_invariant(&*self);
        }
        if self.worker && finished {
            *self = Coordinator { session: SessionState::Idle, worker: false };
        }
    }

    /// Whether a worker is running. `finished` is what the tracked thread
    /// handle says; a worker that has finished is dropped from the books.
    pub fn is_running(&mut self, finished: bool) -> (r: bool)
        ensures
            final(self)@ == reaped(old(self)@, finished),
            r == running(old(self)@, finished),
            well_formed(old(self)@),
    {
        proof {
            use_type_invariant(&*self);
        }
        self.reap(finished);
        self.worker
    }

    /// Decides a `play`, as `spec_play` gives it.
    pub fn play(&mut self, uri: &str, finished: bool) -> (d: Directive)
        ensures
            (final(self)@, d@) == spec_play(old(self)@, uri@, finished),
            well_formed(old(self)@),
    {
        proof {
            use_type_invariant(&*self);
        }
        self.reap(finished);
        proof {
            use_type_invariant(&*self);
        }
        if self.is_ended() {
            Directive::Nothing
        } else if self.worker {
            Directive::Send(Message::Next(uri.to_owned()))
        } else {
            *self = Coordinator { session: SessionState::Active(uri.to_owned()), worker: true };
            Directive::Spawn(uri.to_owned())
        }
    }

    fn tell(&mut self, command: Message, finished: bool) -> (d: Directive)
        ensures
            (final(self)@, d@) == spec_tell(old(self)@, command@, finished),
            well_formed(old(self)@),
    {
        proof {
            use_type_invariant(&*self);
        }
        self.reap(finished);
        if self.worker {
            Directive::Send(command)
        } else {
            Directive::Nothing
        }
    }

    /// Decides a `pause`: sent to a running worker, else nothing.
    pub fn pause(&mut self, finished: bool) -> (d: Directive)
        ensures
            (final(self)@, d@) == spec_tell(old(self)@, MessageView::Pause, finished),
            well_formed(old(self)@),
    {
        self.tell(Message::Pause, finished)
    }

    /// Decides a `stop`: sent to a running worker, else nothing.
    pub fn stop(&mut self, finished: bool) -> (d: Directive)
        ensures
            (final(self)@, d@) == spec_tell(old(self)@, MessageView::Stop, finished),
            well_formed(old(self)@),
    {
        self.tell(Message::Stop, finished)
    }

    /// Decides the end, as `spec_end` gives it. Whether the worker answers
    /// within the plan's time or not, the coordinator has ended.
    pub fn end(&mut self, finished: bool) -> (plan: EndPlan)
        ensures
            (final(self)@, plan) == spec_end(old(self)@, finished),
            well_formed(old(self)@),
    {
        proof {
            use_type_invariant(&*self);
        }
        self.reap(finished);
        let tracked_worker = self.worker;
        *self = Coordinator { session: SessionState::Ended, worker: false };
        EndPlan {
            send_shutdown: tracked_worker,
            join: tracked_worker,
            timeout_seconds: STOP_TIMEOUT_SECONDS,
        }
    }

    /// Takes the worker's report that its session is over.
    pub fn session_ended(&mut self, exit: &Exit)
        ensures
            final(self)@ == spec_session_ended(old(self)@, exit@),
    {
        proof {
            use_type_invariant(&*self);
        }
        let live = match self.session {
            SessionState::Active(_) => true,
            SessionState::PendingNext(_) => true,
            _ => false,
        };
        if live {
            match exit {
                Exit::Stop => {
                    self.session = SessionState::Idle;
                },
                Exit::Next(uri) => {
                    self.session = SessionState::PendingNext(uri.clone());
                },
                Exit::Shutdown => {
                    *self = Coordinator { session: SessionState::Ended, worker: false };
                },
            }
        }
    }

    /// Takes the worker's report that the pipeline for `uri` is built.
    pub fn relaunched(&mut self, uri: &str)
        ensures
            final(self)@ == spec_relaunched(old(self)@, uri@),
    {
        proof {
            use_type_invariant(&*self);
        }
        let pending = match &self.session {
            SessionState::PendingNext(next) => same_text(next.as_str(), uri),
            _ => false,
        };
        if pending {
            self.session = SessionState::Active(uri.to_owned());
        }
    }
}

/// A coordinator to be shared between the caller's side and the worker:
/// behind a mutex that was made with a coordinator before any command.
pub fn new_coordinator() -> (shared: Arc<Mutex<Coordinator>>)
    ensures
        exists|c: Coordinator| c@ == initial() && #[trigger] made_with(c, *shared),
{
    let c = Coordinator::new();
    let mutex = new_lock(c);
    proof {
        assert(made_with(c, mutex));
    }
    Arc::new(mutex)
}

/// Waits for the coordinator's lock for the default time, and hands the
/// worker's report that its session is over to the coordinator. An error
/// is that of the wait.
pub fn report_session_ended(coordinator: &Mutex<Coordinator>, exit: &Exit) -> (r: Result<
    (),
    AppError,
>)
    ensures
        exists|locking: Result<Locked<Coordinator>, AppError>| #[trigger]
            locked_by_default(coordinator, locking) && under_lock(locking, r),
        r is Err ==> is_lock_timeout(r->Err_0),
{
    let locking = coordinator.try_lock_default_duration();
    proof {
        assert(locked_by_default(coordinator, locking));
    }
    match locking {
        Ok(mut locked) => {
            locked.get_mut().session_ended(exit);
            Ok(())
        },
        Err(e) => Err(e),
    }
}

/// Waits for the coordinator's lock for the default time, and hands the
/// worker's report that the pipeline for `uri` is built to the
/// coordinator. An error is that of the wait.
pub fn report_relaunched(coordinator: &Mutex<Coordinator>, uri: &str) -> (r: Result<(), AppError>)
    ensures
        exists|locking: Result<Locked<Coordinator>, AppError>| #[trigger]
            locked_by_default(coordinator, locking) && under_lock(locking, r),
        r is Err ==> is_lock_timeout(r->Err_0),
{
    let locking = coordinator.try_lock_default_duration();
    proof {
        assert(locked_by_default(coordinator, locking));
    }
    match locking {
        Ok(mut locked) => {
            locked.get_mut().relaunched(uri);
            Ok(())
        },
        Err(e) => Err(e),
    }
}

} // verus!
