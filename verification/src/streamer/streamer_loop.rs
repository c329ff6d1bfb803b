use vstd::prelude::*;
use vstd::string::StringExecFns;
use std::sync::Arc;
use parking_lot::Mutex;
use crate::local::app_error::{AppError, ErrorKind};
use crate::local::mutex_lock_timeout::{held, is_lock_timeout, lock_timed_out, Locked};
use crate::local::text::same_text;
use crate::streamer::bus::{no_session, Bus, Bus_};
use crate::streamer::coordinator::{report_relaunched, report_session_ended, Coordinator};
use crate::streamer::engine::{Engine, EventBus, Notifier, Pipeline};
use crate::streamer::message::{
    decode, encode, lemma_round_trip, Message, MessageView, Uri, MESSAGE_NAME,
};
use crate::streamer::structure::{Structure, StructureView};

verus! {

/// The duration of a stream that the engine has not reported yet.
pub const DURATION_UNKNOWN: i64 = -1;

/// The position that is reported when the engine cannot tell it.
pub const POSITION_UNKNOWN: i64 = -1;

/// How long one poll of the bus waits, in milliseconds.
pub const UPDATE_POSITION_MILLISECONDS: u64 = 100;

/// The two states between which `Pause` moves the pipeline.
#[derive(Clone, Copy, Debug, PartialEq, Eq, Structural)]
pub enum PipelineState {
    Paused,
    Playing,
}

/// What the worker keeps about the session it runs.
#[derive(Clone, Copy, Debug, PartialEq, Eq, Structural)]
pub struct Data {
    pub is_playing: bool,
    pub duration: i64,
}

/// Where playback stands, as reported after a poll that brought no message.
#[derive(Clone, Copy, Debug, PartialEq, Eq, Structural)]
pub struct PositionInfo {
    pub position: i64,
    pub duration: Option<i64>,
}

/// What one poll of the bus brought.
#[derive(Debug)]
pub enum Event {
    /// The poll ran out with no message.
    Timeout,
    StateChanged,
    DurationChanged,
    /// The engine reports an error on the stream.
    Error,
    /// The stream has ended.
    Eos,
    /// A call into the engine that the worker was asked to make has failed.
    EngineFailure,
    /// A message that the application posted.
    Application(Structure),
    /// A message of a type that was not asked for, with its number.
    Unexpected(u32),
}

pub enum EventView {
    Timeout,
    StateChanged,
    DurationChanged,
    Error,
    Eos,
    EngineFailure,
    Application(StructureView),
    Unexpected(u32),
}

impl View for Event {
    type V = EventView;

    open spec fn view(&self) -> EventView {
        match self {
            Event::Timeout => EventView::Timeout,
            Event::StateChanged => EventView::StateChanged,
            Event::DurationChanged => EventView::DurationChanged,
            Event::Error => EventView::Error,
            Event::Eos => EventView::Eos,
            Event::EngineFailure => EventView::EngineFailure,
            Event::Application(s) => EventView::Application(s@),
            Event::Unexpected(n) => EventView::Unexpected(*n),
        }
    }
}

/// Why a session ends.
#[derive(Debug)]
pub enum Exit {
    /// Back to idle: a `Stop`, an error or the end of the stream.
    Stop,
    /// On to that URI, on the same worker.
    Next(Uri),
    /// The worker ends for good.
    Shutdown,
}

pub enum ExitView {
    Stop,
    Next(Seq<char>),
    Shutdown,
}

impl View for Exit {
    type V = ExitView;

    open spec fn view(&self) -> ExitView {
        match self {
            Exit::Stop => ExitView::Stop,
            Exit::Next(uri) => ExitView::Next(uri@),
            Exit::Shutdown => ExitView::Shutdown,
        }
    }
}

/// What the worker does after an event.
#[derive(Debug)]
pub enum Reaction {
    /// Poll again.
    Continue,
    /// Ask the engine for the position, and for the duration if the flag is
    /// set, hand both to `update_position`, then poll again.
    Query(bool),
    /// Set the pipeline to that state, then poll again; if the engine
    /// refuses, the next event is `EngineFailure`.
    SetState(PipelineState),
    /// Log the error and poll again.
    Discard(AppError),
    /// Leave the loop and tear the session down.
    Teardown(Exit),
}

pub enum ReactionView {
    Continue,
    Query(bool),
    SetState(PipelineState),
    Discard(ErrorKind),
    Teardown(ExitView),
}

impl View for Reaction {
    type V = ReactionView;

    open spec fn view(&self) -> ReactionView {
        match self {
            Reaction::Continue => ReactionView::Continue,
            Reaction::Query(d) => ReactionView::Query(*d),
            Reaction::SetState(s) => ReactionView::SetState(*s),
            Reaction::Discard(e) => ReactionView::Discard(e.spec_kind()),
            Reaction::Teardown(exit) => ReactionView::Teardown(exit@),
        }
    }
}

/// The command that an application message holds: the message must bear
/// the pipe's name and decode to a command that a running session takes.
/// `Play` starts a worker and never travels on the bus.
pub open spec fn command_of(s: StructureView) -> Option<MessageView> {
    if s.name != MESSAGE_NAME@ {
        None
    } else {
        match decode(s) {
            Some(MessageView::Play(_)) => None,
            other => other,
        }
    }
}

/// The session's data after a command, and the worker's reaction to it.
pub open spec fn dispatch(data: Data, command: MessageView) -> (Data, ReactionView) {
    match command {
        MessageView::Pause => if data.is_playing {
            (Data { is_playing: false, ..data }, ReactionView::SetState(PipelineState::Paused))
        } else {
            (Data { is_playing: true, ..data }, ReactionView::SetState(PipelineState::Playing))
        },
        MessageView::Stop => (data, ReactionView::Teardown(ExitView::Stop)),
        MessageView::Next(uri) => (data, ReactionView::Teardown(ExitView::Next(uri))),
        MessageView::Shutdown => (data, ReactionView::Teardown(ExitView::Shutdown)),
        MessageView::Play(_) => (data, ReactionView::Discard(ErrorKind::Protocol)),
    }
}

/// The session's data after an event, and the worker's reaction to it.
pub open spec fn step(data: Data, event: EventView) -> (Data, ReactionView) {
    match event {
        EventView::Timeout => if data.is_playing {
            (data, ReactionView::Query(data.duration == DURATION_UNKNOWN))
        } else {
            (data, ReactionView::Continue)
        },
        EventView::StateChanged => (data, ReactionView::Continue),
        EventView::DurationChanged => (
            Data { duration: DURATION_UNKNOWN, ..data },
            ReactionView::Continue,
        ),
        EventView::Error => (data, ReactionView::Teardown(ExitView::Stop)),
        EventView::Eos => (data, ReactionView::Teardown(ExitView::Stop)),
        EventView::EngineFailure => (data, ReactionView::Teardown(ExitView::Stop)),
        EventView::Application(s) => match command_of(s) {
            Some(command) => dispatch(data, command),
            None => (data, ReactionView::Discard(ErrorKind::Protocol)),
        },
        EventView::Unexpected(_) => (data, ReactionView::Discard(ErrorKind::Protocol)),
    }
}

/// The session's data after the engine has answered a query, where `None`
/// stands for a query that failed or was not made: a duration is kept once
/// it is known.
pub open spec fn refreshed(data: Data, duration: Option<i64>) -> Data {
    if data.duration == DURATION_UNKNOWN && duration is Some {
        Data { duration: duration->Some_0, ..data }
    } else {
        data
    }
}

/// What is reported after a query.
pub open spec fn report(data: Data, position: Option<i64>, duration: Option<i64>) -> PositionInfo {
    let known = refreshed(data, duration).duration;
    PositionInfo {
        position: match position {
            Some(p) => p,
            None => POSITION_UNKNOWN,
        },
        duration: if known == DURATION_UNKNOWN {
            None
        } else {
            Some(known)
        },
    }
}

impl Data {
    /// The data of a session that has just been launched: playing, with a
    /// duration not yet known.
    pub fn new() -> (d: Data)
        ensures
            d == (Data { is_playing: true, duration: DURATION_UNKNOWN }),
    {
        Data { is_playing: true, duration: DURATION_UNKNOWN }
    }
}

/// Takes a command that came over the bus: `Pause` turns the flag over and
/// asks for the matching pipeline state, `Stop`, `Next` and `Shutdown` end
/// the session. A message under another name, one that holds no command,
/// and a `Play` are errors of class `Protocol`, and leave the data as it is.
pub fn handle_application_message(data: &mut Data, structure: Structure) -> (r: Result<
    Reaction,
    AppError,
>)
    ensures
        match command_of(structure@) {
            Some(command) => r is Ok && (*final(data), r->Ok_0@) == dispatch(*old(data), command),
            None => r is Err && r->Err_0.spec_kind() == ErrorKind::Protocol && *final(data)
                == *old(data),
        },
{
    if !same_text(structure.name(), MESSAGE_NAME) {
        return Err(
            AppError::with_kind(
                ErrorKind::Protocol,
                String::from_str("Streamer pipe message name error: ").concat(structure.name()),
            ),
        );
    }
    let message = match Message::from_structure(structure) {
        Ok(message) => message,
        Err(e) => {
            return Err(e);
        },
    };
    match message {
        Message::Play(_) => Err(
            AppError::with_kind(
                ErrorKind::Protocol,
                String::from_str("A running session takes no `Play`."),
            ),
        ),
        Message::Pause => {
            if data.is_playing {
                data.is_playing = false;
                Ok(Reaction::SetState(PipelineState::Paused))
            } else {
                data.is_playing = true;
                Ok(Reaction::SetState(PipelineState::Playing))
            }
        },
        Message::Stop => Ok(Reaction::Teardown(Exit::Stop)),
        Message::Next(uri) => Ok(Reaction::Teardown(Exit::Next(uri))),
        Message::Shutdown => Ok(Reaction::Teardown(Exit::Shutdown)),
    }
}

/// Takes what one poll of the bus brought, and says what the worker does
/// next, as `step` gives it. No event makes the loop fail: what cannot be
/// read is handed back to be logged.
pub fn handle_message(data: &mut Data, event: Event) -> (r: Reaction)
    ensures
        (*final(data), r@) == step(*old(data), event@),
{
    match event {
        Event::Timeout => {
            if data.is_playing {
                Reaction::Query(data.duration == DURATION_UNKNOWN)
            } else {
                Reaction::Continue
            }
        },
        Event::StateChanged => Reaction::Continue,
        Event::DurationChanged => {
            data.duration = DURATION_UNKNOWN;
            Reaction::Continue
        },
        Event::Error => Reaction::Teardown(Exit::Stop),
        Event::Eos => Reaction::Teardown(Exit::Stop),
        Event::EngineFailure => Reaction::Teardown(Exit::Stop),
        Event::Application(structure) => {
            match handle_application_message(data, structure) {
                Ok(reaction) => reaction,
                Err(e) => Reaction::Discard(e),
            }
        },
        Event::Unexpected(_) => Reaction::Discard(
            AppError::with_kind(
                ErrorKind::Protocol,
                String::from_str("Unexpected message number received."),
            ),
        ),
    }
}

/// Takes the engine's answers to a query, where `None` stands for a query
/// that failed or was not made, and gives what is reported. A duration that
/// is known is kept; one that is not is taken from the answer.
pub fn update_position(data: &mut Data, position: Option<i64>, duration: Option<i64>) -> (r:
    PositionInfo)
    ensures
        *final(data) == refreshed(*old(data), duration),
        r == report(*old(data), position, duration),
{
    if data.duration == DURATION_UNKNOWN {
        if let Some(d) = duration {
            data.duration = d;
        }
    }
    PositionInfo {
        position: match position {
            Some(p) => p,
            None => POSITION_UNKNOWN,
        },
        duration: if data.duration == DURATION_UNKNOWN {
            None
        } else {
            Some(data.duration)
        },
    }
}

/// How far the teardown of a session has come.
#[derive(Clone, Copy, Debug, PartialEq, Eq, Structural)]
pub enum Teardown {
    /// Nothing is released yet.
    Pending,
    /// The bus slot is empty; the pipeline is still there.
    BusReleased,
    /// Both are released.
    Finished,
}

/// What the worker does next to tear the session down.
#[derive(Clone, Copy, Debug, PartialEq, Eq, Structural)]
pub enum TeardownStep {
    /// Take the bus out of the slot.
    ReleaseBus,
    /// Stop the pipeline and give it up.
    ReleasePipeline,
    /// Nothing is left to do.
    Done,
}

/// The one path of every teardown, whatever caused it: first the bus slot
/// is emptied, then the pipeline is released, and after that nothing more
/// is done.
pub open spec fn teardown_step(t: Teardown) -> (Teardown, TeardownStep) {
    match t {
        Teardown::Pending => (Teardown::BusReleased, TeardownStep::ReleaseBus),
        Teardown::BusReleased => (Teardown::Finished, TeardownStep::ReleasePipeline),
        Teardown::Finished => (Teardown::Finished, TeardownStep::Done),
    }
}

impl Teardown {
    /// A teardown that has not begun.
    pub fn new() -> (t: Teardown)
        ensures
            t == Teardown::Pending,
    {
        Teardown::Pending
    }

    /// The next thing to do, as `teardown_step` gives it, and the teardown
    /// after it is done.
    pub fn next(&mut self) -> (step: TeardownStep)
        ensures
            (*final(self), step) == teardown_step(*old(self)),
    {
        match *self {
            Teardown::Pending => {
                *self = Teardown::BusReleased;
                TeardownStep::ReleaseBus
            },
            Teardown::BusReleased => {
                *self = Teardown::Finished;
                TeardownStep::ReleasePipeline
            },
            Teardown::Finished => TeardownStep::Done,
        }
    }
}

/// The URI on which the same worker goes on after a session, if it does.
pub open spec fn relaunch_target(exit: ExitView) -> Option<Seq<char>> {
    match exit {
        ExitView::Next(uri) => Some(uri),
        _ => None,
    }
}

/// Decides what the worker does after a session: after `Next` it builds a
/// pipeline for the new URI itself, and no other thread is started; after
/// anything else it returns.
pub fn next_launch(exit: Exit) -> (r: Option<Uri>)
    ensures
        match relaunch_target(exit@) {
            Some(uri) => r is Some && r->Some_0@ == uri,
            None => r is None,
        },
{
    match exit {
        Exit::Next(uri) => Some(uri),
        _ => None,
    }
}

/// A teardown releases the bus before the pipeline, and a teardown that is
/// finished stays finished: tearing down twice does no more than once.
pub proof fn lemma_teardown_order(t: Teardown)
    ensures
        teardown_step(Teardown::Pending).1 == TeardownStep::ReleaseBus,
        teardown_step(teardown_step(Teardown::Pending).0).1 == TeardownStep::ReleasePipeline,
        teardown_step(teardown_step(teardown_step(Teardown::Pending).0).0) == (
            Teardown::Finished,
            TeardownStep::Done,
        ),
        teardown_step(t).1 == TeardownStep::ReleasePipeline ==> t == Teardown::BusReleased,
        teardown_step(Teardown::Finished) == (Teardown::Finished, TeardownStep::Done),
{
}

/// A command that a running session takes, put into the form in which the
/// pipe posts it, is the command that the worker reads.
pub proof fn lemma_command_round_trip(message: MessageView)
    requires
        !(message is Play),
    ensures
        command_of(encode(message, MESSAGE_NAME@)) == Some(message),
{
    lemma_round_trip(message, MESSAGE_NAME@);
}

/// The pipeline state that a `Pause` asks for: the opposite of where the
/// session stands.
pub open spec fn toggled(data: Data) -> PipelineState {
    if data.is_playing {
        PipelineState::Paused
    } else {
        PipelineState::Playing
    }
}

/// Two `Pause` commands in a row leave the session's data as it was, the
/// flag included, and ask for the two pipeline states in turn: first the
/// opposite of where the session stood, then that again.
pub proof fn lemma_pause_twice(data: Data, first: StructureView, second: StructureView)
    requires
        command_of(first) == Some(MessageView::Pause),
        command_of(second) == Some(MessageView::Pause),
    ensures
        step(data, EventView::Application(first)).0.is_playing == !data.is_playing,
        step(data, EventView::Application(first)).1 == ReactionView::SetState(toggled(data)),
        step(step(data, EventView::Application(first)).0, EventView::Application(second)).0
            == data,
        step(step(data, EventView::Application(first)).0, EventView::Application(second)).1
            == ReactionView::SetState(toggled(step(data, EventView::Application(first)).0)),
        toggled(step(data, EventView::Application(first)).0) != toggled(data),
{
}

/// No event ends a session but an error, the end of the stream, a failure
/// of the engine, or one of the commands `Stop`, `Next` and `Shutdown`; and
/// only `Next` leads on to another URI.
pub proof fn lemma_teardown_causes(data: Data, event: EventView)
    ensures
        step(data, event).1 is Teardown <==> (event is Error || event is Eos || event
            is EngineFailure || (event is Application && (command_of(event->Application_0)
            == Some(MessageView::Stop) || command_of(event->Application_0) == Some(
            MessageView::Shutdown,
        ) || (command_of(event->Application_0) is Some && command_of(
            event->Application_0,
        )->Some_0 is Next)))),
        step(data, event).1 is Teardown && step(data, event).1->Teardown_0 is Next ==> event
            is Application && command_of(event->Application_0) == Some(
            MessageView::Next(step(data, event).1->Teardown_0->Next_0),
        ),
{
}

/// The event that a poll of the bus stands for: the message if there is
/// one, a `Timeout` if there is none, and a failure of the engine if the
/// poll failed.
pub open spec fn polled_event(popped: Result<Option<Event>, AppError>) -> Event {
    match popped {
        Ok(Some(event)) => event,
        Ok(None) => Event::Timeout,
        Err(_) => Event::EngineFailure,
    }
}

/// The event that a poll of the bus stands for, and the error to log if
/// the poll failed: no message is a `Timeout`, and a poll that failed is a
/// failure of the engine.
pub fn event_of(popped: Result<Option<Event>, AppError>) -> (r: (Event, Option<AppError>))
    ensures
        r.0 == polled_event(popped),
        match popped {
            Ok(Some(event)) => r.0 == event && r.1 is None,
            Ok(None) => r.0@ == EventView::Timeout && r.1 is None,
            Err(e) => r.0@ == EventView::EngineFailure && r.1 == Some(e),
        },
{
    match popped {
        Ok(Some(event)) => (event, None),
        Ok(None) => (Event::Timeout, None),
        Err(e) => (Event::EngineFailure, Some(e)),
    }
}

/// How many steps a teardown has left.
pub open spec fn teardown_left(t: Teardown) -> nat {
    match t {
        Teardown::Pending => 2,
        Teardown::BusReleased => 1,
        Teardown::Finished => 0,
    }
}

/// How many launches are certainly still to come: one if a URI waits.
pub open spec fn launches_left(play: Option<Uri>) -> nat {
    if play is Some {
        1
    } else {
        0
    }
}

/// The loop that a worker thread runs.
pub trait StreamerLoop: Send + Sync {
    /// Plays `uri`, and after it whatever `Next` names, on this thread,
    /// until a session ends otherwise or `max_polls` polls of the bus have
    /// been made.
    fn start_loop(&self, uri: &str, max_polls: u64);
}

/// The loop over the shared bus slot, the shared coordinator, the engine
/// and the notifier.
pub struct StreamerLoop_<E: Engine + ?Sized, N: Notifier + ?Sized> {
    bus: Arc<Bus_<Box<E::Bus>>>,
    coordinator: Arc<Mutex<Coordinator>>,
    engine: Box<E>,
    notifier: Box<N>,
}

/// A loop over those four.
pub fn new_impl<E: Engine + ?Sized, N: Notifier + ?Sized>(
    bus: Arc<Bus_<Box<E::Bus>>>,
    coordinator: Arc<Mutex<Coordinator>>,
    engine: Box<E>,
    notifier: Box<N>,
) -> (streamer_loop: Box<StreamerLoop_<E, N>>)
    ensures
        streamer_loop.bus() == bus,
        streamer_loop.coordinator() == coordinator,
        streamer_loop.engine() == engine,
        streamer_loop.notifier() == notifier,
{
    Box::new(StreamerLoop_ { bus, coordinator, engine, notifier })
}

impl<E: Engine + ?Sized, N: Notifier + ?Sized> StreamerLoop_<E, N> {
    /// The bus slot that this loop fills, polls and empties.
    pub closed spec fn bus(&self) -> Arc<Bus_<Box<E::Bus>>> {
        self.bus
    }

    /// The coordinator that this loop reports to.
    pub closed spec fn coordinator(&self) -> Arc<Mutex<Coordinator>> {
        self.coordinator
    }

    /// The engine that builds this loop's pipelines.
    pub closed spec fn engine(&self) -> Box<E> {
        self.engine
    }

    /// Where this loop sends positions and errors.
    pub closed spec fn notifier(&self) -> Box<N> {
        self.notifier
    }

    fn log_failure(&self, outcome: Result<(), AppError>) {
        match outcome {
            Ok(()) => {},
            Err(e) => {
                self.notifier.log(&e);
            },
        }
    }

    /// What one poll gives, given what `get_lock` of the slot gave. A lock
    /// that was not acquired in time gives no event; any other error, and
    /// a slot without a bus, stand for a failure of the engine; and a bus
    /// gives the event that its timed pop stands for.
    pub open spec fn poll_outcome(
        got: Result<Locked<Option<Box<E::Bus>>>, AppError>,
        event: Option<Event>,
    ) -> bool {
        match got {
            Err(e) => if is_lock_timeout(e) {
                event is None
            } else {
                event == Some(Event::EngineFailure)
            },
            Ok(locked) => exists|slot: &Option<Box<E::Bus>>| #[trigger]
                held(&locked, slot) && match *slot {
                    None => event == Some(Event::EngineFailure),
                    Some(bus) => exists|popped: Result<Option<Event>, AppError>| #[trigger]
                        call_ensures(
                            <E::Bus as EventBus>::timed_pop,
                            (&*bus, UPDATE_POSITION_MILLISECONDS),
                            popped,
                        ) && event == Some(polled_event(popped)),
                },
        }
    }

    /// Whether `event` is what one poll of the bus in the slot gives.
    pub open spec fn polled(&self, event: Option<Event>) -> bool {
        exists|got: Result<Locked<Option<Box<E::Bus>>>, AppError>| #[trigger]
            self.bus().lock_got(got) && Self::poll_outcome(got, event)
    }

    /// Polls the bus in the slot once, as `polled` says. `None` stands for
    /// a slot whose lock was not acquired in time: that is logged, and the
    /// loop goes on.
    fn poll(&self) -> (event: Option<Event>)
        ensures
            self.polled(event),
    {
        let got = self.bus.get_lock();
        proof {
            assert(self.bus().lock_got(got));
        }
        let popped = match got {
            Ok(locked) => {
                let slot = locked.get();
                match slot {
                    Some(bus) => {
                        let popped = bus.timed_pop(UPDATE_POSITION_MILLISECONDS);
                        proof {
                            assert(call_ensures(
                                <E::Bus as EventBus>::timed_pop,
                                (&**bus, UPDATE_POSITION_MILLISECONDS),
                                popped,
                            ));
                        }
                        popped
                    },
                    None => Err(no_session()),
                }
            },
            Err(e) => {
                if lock_timed_out(&e) {
                    self.notifier.log(&e);
                    return None;
                }
                Err(e)
            },
        };
        let (event, failure) = event_of(popped);
        match failure {
            Some(e) => {
                self.notifier.log(&e);
            },
            None => {},
        }
        Some(event)
    }

    /// What the reaction to an event gives, for the data `data` of the
    /// session: the data after it and the exit, if the session ends. The
    /// data and the reaction are those of `step`; a query takes what the
    /// pipeline answers; and a pipeline that refuses the state that a
    /// `Pause` asks for ends the session as by `Stop`.
    pub open spec fn reacted(
        pipeline: &E::Pipeline,
        data: Data,
        event: Event,
        after: Data,
        exit: Option<Exit>,
    ) -> bool {
        match step(data, event@).1 {
            ReactionView::Teardown(wanted) => after == step(data, event@).0 && exit is Some
                && exit->Some_0@ == wanted,
            ReactionView::SetState(state) => after == step(data, event@).0 && exists|
                set: Result<(), AppError>,
            | #[trigger]
                call_ensures(<E::Pipeline as Pipeline>::set_state, (pipeline, state), set) && (
                if set is Ok {
                    exit is None
                } else {
                    exit is Some && exit->Some_0@ == ExitView::Stop
                }),
            ReactionView::Query(with_duration) => exit is None && exists|
                position: Option<i64>,
                duration: Option<i64>,
            |
                #![trigger refreshed(step(data, event@).0, duration), call_ensures(<E::Pipeline as Pipeline>::query_position, (pipeline,), position)]
                call_ensures(<E::Pipeline as Pipeline>::query_position, (pipeline,), position)
                    && (if with_duration {
                    call_ensures(<E::Pipeline as Pipeline>::query_duration, (pipeline,), duration)
                } else {
                    duration is None
                }) && after == refreshed(step(data, event@).0, duration),
            _ => after == step(data, event@).0 && exit is None,
        }
    }

    /// Does what the event asks for, as `reacted` says.
    fn react(&self, data: &mut Data, pipeline: &Box<E::Pipeline>, event: Event) -> (exit: Option<
        Exit,
    >)
        ensures
            Self::reacted(&**pipeline, *old(data), event, *final(data), exit),
            match step(*old(data), event@).1 {
                ReactionView::Teardown(wanted) => exit is Some && exit->Some_0@ == wanted,
                ReactionView::SetState(_) => exit is None || exit->Some_0@ == ExitView::Stop,
                _ => exit is None,
            },
            final(data).is_playing == step(*old(data), event@).0.is_playing,
    {
        let ghost before = *data;
        match handle_message(data, event) {
            Reaction::Continue => None,
            Reaction::Query(with_duration) => {
                let position = pipeline.query_position();
                let duration = if with_duration {
                    pipeline.query_duration()
                } else {
                    None
                };
                let ghost stepped = *data;
                let info = update_position(data, position, duration);
                proof {
                    assert(call_ensures(
                        <E::Pipeline as Pipeline>::query_position,
                        (&**pipeline,),
                        position,
                    ));
                    assert(*data == refreshed(step(before, event@).0, duration));
                }
                self.notifier.notify(info);
                None
            },
            Reaction::SetState(state) => {
                let set = pipeline.set_state(state);
                proof {
                    assert(call_ensures(
                        <E::Pipeline as Pipeline>::set_state,
                        (&**pipeline, state),
                        set,
                    ));
                }
                match set {
                    Ok(()) => None,
                    Err(e) => {
                        self.notifier.log(&e);
                        match handle_message(data, Event::EngineFailure) {
                            Reaction::Teardown(exit) => Some(exit),
                            _ => None,
                        }
                    },
                }
            },
            Reaction::Discard(e) => {
                self.notifier.log(&e);
                None
            },
            Reaction::Teardown(exit) => Some(exit),
        }
    }

    /// Whether a session that starts with the data `data` and `polls`
    /// polls to make ends with `exit` and `left` polls left. With no poll
    /// to make it ends as by `Stop`. Else it polls once, as `polled` says;
    /// with no event it goes on; with an event it reacts, as `reacted`
    /// says, and ends with the exit of that or goes on.
    pub open spec fn ran(
        &self,
        pipeline: &E::Pipeline,
        data: Data,
        polls: nat,
        left: nat,
        exit: ExitView,
    ) -> bool
        decreases polls,
    {
        if polls == 0 {
            left == 0 && exit == ExitView::Stop
        } else {
            exists|event: Option<Event>| #[trigger]
                self.polled(event) && match event {
                    None => self.ran(pipeline, data, (polls - 1) as nat, left, exit),
                    Some(e) => exists|after: Data, ended: Option<Exit>| #[trigger]
                        Self::reacted(pipeline, data, e, after, ended) && match ended {
                            Some(x) => left == polls - 1 && exit == x@,
                            None => self.ran(pipeline, after, (polls - 1) as nat, left, exit),
                        },
                }
        }
    }

    /// Polls and reacts until the session ends, as `ran` says of a session
    /// that has just been launched. A session that uses up the polls ends
    /// as by `Stop`; one that ends with `Next` has made at least one poll.
    fn gst_loop(&self, pipeline: &Box<E::Pipeline>, polls: &mut u64) -> (exit: Exit)
        ensures
            self.ran(
                &**pipeline,
                Data { is_playing: true, duration: DURATION_UNKNOWN },
                *old(polls) as nat,
                *final(polls) as nat,
                exit@,
            ),
            *final(polls) <= *old(polls),
            exit is Next ==> *final(polls) < *old(polls),
    {
        let mut data = Data::new();
        let ghost first = data;
        let ghost budget = *polls as nat;
        while *polls > 0
            invariant
                *polls <= *old(polls),
                first == (Data { is_playing: true, duration: DURATION_UNKNOWN }),
                budget == *old(polls) as nat,
                forall|left: nat, x: ExitView| #[trigger]
                    self.ran(&**pipeline, data, *polls as nat, left, x) ==> self.ran(
                        &**pipeline,
                        first,
                        budget,
                        left,
                        x,
                    ),
            decreases *polls,
        {
            let ghost before = data;
            let ghost had = *polls as nat;
            *polls = *polls - 1;
            let event = self.poll();
            match event {
                Some(e) => {
                    let ended = self.react(&mut data, pipeline, e);
                    proof {
                        assert(Self::reacted(&**pipeline, before, e, data, ended));
                    }
                    match ended {
                        Some(exit) => {
                            proof {
                                assert(self.ran(
                                    &**pipeline,
                                    before,
                                    had,
                                    *polls as nat,
                                    exit@,
                                ));
                            }
                            return exit;
                        },
                        None => {
                            proof {
                                assert forall|left: nat, x: ExitView| #[trigger]
                                    self.ran(
                                        &**pipeline,
                                        data,
                                        *polls as nat,
                                        left,
                                        x,
                                    ) implies self.ran(&**pipeline, before, had, left, x) by {
                                    assert(self.polled(event));
                                    assert(Self::reacted(&**pipeline, before, e, data, ended));
                                }
                            }
                        },
                    }
                },
                None => {
                    proof {
                        assert forall|left: nat, x: ExitView| #[trigger]
                            self.ran(&**pipeline, data, *polls as nat, left, x) implies self.ran(
                            &**pipeline,
                            before,
                            had,
                            left,
                            x,
                        ) by {
                            assert(self.polled(event));
                        }
                    }
                },
            }
        }
        proof {
            assert(self.ran(&**pipeline, data, 0, 0, ExitView::Stop));
        }
        Exit::Stop
    }

    /// Tears the session down, along the one path of `teardown_step`: the
    /// bus leaves the slot, then the pipeline is released.
    fn teardown(&self, pipeline: &Box<E::Pipeline>) {
        let mut progress = Teardown::new();
        loop
            decreases teardown_left(progress),
        {
            match progress.next() {
                TeardownStep::ReleaseBus => {
                    match self.bus.take() {
                        Ok(_) => {},
                        Err(e) => {
                            self.notifier.log(&e);
                        },
                    }
                },
                TeardownStep::ReleasePipeline => {
                    pipeline.release();
                },
                TeardownStep::Done => {
                    return ;
                },
            }
        }
    }

    /// What a launch gives, given what the engine built: its error; or the
    /// pipeline, if the slot took the bus; or the error of the slot.
    pub open spec fn launch_outcome(
        &self,
        built: Result<(Box<E::Pipeline>, Box<E::Bus>), AppError>,
        r: Result<Box<E::Pipeline>, AppError>,
    ) -> bool {
        match built {
            Err(e) => r == Err::<Box<E::Pipeline>, AppError>(e),
            Ok(pair) => exists|set: Result<(), AppError>| #[trigger]
                self.bus().was_set(set) && match set {
                    Ok(_) => r == Ok::<Box<E::Pipeline>, AppError>(pair.0),
                    Err(e) => r == Err::<Box<E::Pipeline>, AppError>(e),
                },
        }
    }

    /// Whether `r` is what a launch on `uri` gives: what `launch_outcome`
    /// makes of what the engine builds for `uri`.
    pub open spec fn launched(&self, uri: Seq<char>, r: Result<Box<E::Pipeline>, AppError>) -> bool {
        exists|text: &str, built: Result<(Box<E::Pipeline>, Box<E::Bus>), AppError>|
            #![trigger call_ensures(E::build_pipeline, (&*self.engine(), text), built)]
            text@ == uri && call_ensures(E::build_pipeline, (&*self.engine(), text), built)
                && self.launch_outcome(built, r)
    }

    /// Builds the pipeline for `uri` and puts its bus into the slot, as
    /// `launched` says. If the slot does not take the bus, the pipeline is
    /// released again.
    fn launch(&self, uri: &str) -> (r: Result<Box<E::Pipeline>, AppError>)
        ensures
            self.launched(uri@, r),
    {
        let built = self.engine.build_pipeline(uri);
        proof {
            assert(call_ensures(E::build_pipeline, (&*self.engine(), uri), built));
        }
        let (pipeline, bus) = match built {
            Ok(pair) => pair,
            Err(e) => {
                return Err(e);
            },
        };
        let set = self.bus.set(bus);
        proof {
            assert(self.bus().was_set(set));
        }
        match set {
            Ok(()) => Ok(pipeline),
            Err(e) => {
                pipeline.release();
                Err(e)
            },
        }
    }
}

impl<E: Engine + ?Sized, N: Notifier + ?Sized> StreamerLoop for StreamerLoop_<E, N> {
    fn start_loop(&self, uri: &str, max_polls: u64) {
        match self.engine.initialize() {
            Ok(()) => {},
            Err(e) => {
                self.notifier.log(&e);
                self.log_failure(report_session_ended(&self.coordinator, &Exit::Stop));
                return ;
            },
        }
        let mut polls = max_polls;
        let mut play: Option<Uri> = Some(uri.to_owned());
        while play.is_some()
            decreases polls, launches_left(play),
        {
            let uri = play.unwrap();
            let exit = match self.launch(uri.as_str()) {
                Ok(pipeline) => {
                    self.log_failure(report_relaunched(&self.coordinator, uri.as_str()));
                    let exit = self.gst_loop(&pipeline, &mut polls);
                    self.teardown(&pipeline);
                    exit
                },
                Err(e) => {
                    self.notifier.log(&e);
                    Exit::Stop
                },
            };
            self.log_failure(report_session_ended(&self.coordinator, &exit));
            play = next_launch(exit);
        }
    }
}

} // verus!
