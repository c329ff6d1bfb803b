use std::collections::VecDeque;
use std::sync::{Arc, Mutex};

use playback::local::app_error::{AppError, ErrorKind};
use playback::local::mutex_lock_timeout::MutexLockTimeout;
use playback::streamer::bus::{new_arc, Bus};
use playback::streamer::coordinator::{new_coordinator, SessionState};
use playback::streamer::engine::{
    pipeline_description, query_answer, Engine, EventBus, Notifier, Pipeline, NO_ANSWER,
};
use playback::streamer::message::{Message, MESSAGE_NAME};
use playback::streamer::streamer_loop::{
    new_impl, Event, PipelineState, PositionInfo, StreamerLoop,
};
use playback::streamer::structure::Structure;

#[derive(Default)]
struct Journal {
    lines: Vec<String>,
    positions: Vec<PositionInfo>,
    errors: Vec<ErrorKind>,
}

type Shared = Arc<Mutex<Journal>>;

fn note(journal: &Shared, line: String) {
    journal.lock().unwrap().lines.push(line);
}

struct ScriptedBus {
    events: Mutex<VecDeque<Event>>,
    journal: Shared,
}

impl EventBus for ScriptedBus {
    fn post(&self, structure: Structure) -> Result<(), AppError> {
        self.events.lock().unwrap().push_back(Event::Application(structure));
        Ok(())
    }

    fn timed_pop(&self, timeout_milliseconds: u64) -> Result<Option<Event>, AppError> {
        assert_eq!(timeout_milliseconds, 100);
        note(&self.journal, "pop".to_owned());
        Ok(self.events.lock().unwrap().pop_front())
    }
}

struct ScriptedPipeline {
    uri: String,
    refuse_state: bool,
    journal: Shared,
}

impl Pipeline for ScriptedPipeline {
    fn set_state(&self, state: PipelineState) -> Result<(), AppError> {
        note(&self.journal, format!("set_state {} {:?}", self.uri, state));
        if self.refuse_state {
            return Err(AppError::with_kind(ErrorKind::Engine, "state".to_owned()));
        }
        Ok(())
    }

    fn query_position(&self) -> Option<i64> {
        Some(10)
    }

    fn query_duration(&self) -> Option<i64> {
        note(&self.journal, "query_duration".to_owned());
        Some(11)
    }

    fn release(&self) {
        note(&self.journal, format!("release {}", self.uri));
    }
}

struct ScriptedEngine {
    scripts: Mutex<VecDeque<Vec<Event>>>,
    refuse_state: bool,
    bus_slot: Arc<playback::streamer::bus::Bus_<Box<dyn EventBus>>>,
    journal: Shared,
}

impl Engine for ScriptedEngine {
    type Bus = dyn EventBus;
    type Pipeline = dyn Pipeline;

    fn initialize(&self) -> Result<(), AppError> {
        note(&self.journal, "initialize".to_owned());
        Ok(())
    }

    fn build_pipeline(
        &self,
        uri: &str,
    ) -> Result<(Box<dyn Pipeline>, Box<dyn EventBus>), AppError> {
        let script = match self.scripts.lock().unwrap().pop_front() {
            Some(script) => script,
            None => return Err(AppError::with_kind(ErrorKind::Engine, "no pipeline".to_owned())),
        };
        let slot_is_empty = self.bus_slot.get_lock().is_err();
        note(&self.journal, format!("build {uri} slot_empty={slot_is_empty}"));
        Ok((
            Box::new(ScriptedPipeline {
                uri: uri.to_owned(),
                refuse_state: self.refuse_state,
                journal: self.journal.clone(),
            }),
            Box::new(ScriptedBus { events: Mutex::new(script.into()), journal: self.journal.clone() }),
        ))
    }
}

struct Recorder {
    journal: Shared,
}

impl Notifier for Recorder {
    fn notify(&self, info: PositionInfo) {
        self.journal.lock().unwrap().positions.push(info);
    }

    fn log(&self, error: &AppError) {
        self.journal.lock().unwrap().errors.push(error.kind());
    }
}

fn command(message: Message) -> Event {
    Event::Application(message.to_structure(MESSAGE_NAME).unwrap())
}

struct Outcome {
    journal: Journal,
    session_is_idle: bool,
    session_is_ended: bool,
    slot_is_empty: bool,
}

fn run(scripts: Vec<Vec<Event>>, refuse_state: bool, uri: &str, max_polls: u64) -> Outcome {
    let journal: Shared = Arc::new(Mutex::new(Journal::default()));
    let bus = new_arc::<Box<dyn EventBus>>();
    let coordinator = new_coordinator();
    coordinator.try_lock_default_duration().unwrap().get_mut().play(uri, false);
    let streamer_loop = new_impl(
        bus.clone(),
        coordinator.clone(),
        Box::new(ScriptedEngine {
            scripts: Mutex::new(scripts.into()),
            refuse_state,
            bus_slot: bus.clone(),
            journal: journal.clone(),
        }),
        Box::new(Recorder { journal: journal.clone() }),
    );

    streamer_loop.start_loop(uri, max_polls);
    drop(streamer_loop);

    let locked = coordinator.try_lock_default_duration().unwrap();
    let session_is_idle = matches!(locked.get().session(), SessionState::Idle);
    let session_is_ended = matches!(locked.get().session(), SessionState::Ended);
    let slot_is_empty = bus.get_lock().is_err();
    let journal = std::mem::take(&mut *journal.lock().unwrap());
    Outcome { journal, session_is_idle, session_is_ended, slot_is_empty }
}

fn without_pops(lines: &[String]) -> Vec<&str> {
    lines.iter().map(String::as_str).filter(|line| *line != "pop").collect()
}

#[test]
fn stop_tears_the_session_down_and_returns_to_idle() {
    let outcome = run(vec![vec![command(Message::Stop)]], false, "a.mp3", 1000);

    assert_eq!(
        without_pops(&outcome.journal.lines),
        ["initialize", "build a.mp3 slot_empty=true", "release a.mp3"]
    );
    assert!(outcome.session_is_idle);
    assert!(outcome.slot_is_empty);
    assert!(outcome.journal.errors.is_empty());
}

#[test]
fn next_relaunches_on_the_same_thread_after_a_full_teardown() {
    let scripts = vec![
        vec![command(Message::Next("b.mp3".to_owned()))],
        vec![command(Message::Stop)],
    ];

    let outcome = run(scripts, false, "a.mp3", 1000);

    assert_eq!(
        without_pops(&outcome.journal.lines),
        [
            "initialize",
            "build a.mp3 slot_empty=true",
            "release a.mp3",
            "build b.mp3 slot_empty=true",
            "release b.mp3",
        ]
    );
    assert!(outcome.session_is_idle);
    assert!(outcome.slot_is_empty);
}

#[test]
fn pause_twice_sets_paused_then_playing() {
    let script =
        vec![command(Message::Pause), command(Message::Pause), command(Message::Stop)];

    let outcome = run(vec![script], false, "a.mp3", 1000);

    assert_eq!(
        without_pops(&outcome.journal.lines),
        [
            "initialize",
            "build a.mp3 slot_empty=true",
            "set_state a.mp3 Paused",
            "set_state a.mp3 Playing",
            "release a.mp3",
        ]
    );
}

#[test]
fn shutdown_ends_the_worker_for_good() {
    let outcome = run(vec![vec![command(Message::Shutdown)]], false, "a.mp3", 1000);

    assert!(outcome.session_is_ended);
    assert!(outcome.slot_is_empty);
    assert_eq!(outcome.journal.lines.last().unwrap(), "release a.mp3");
}

#[test]
fn an_engine_error_mid_playback_returns_to_idle() {
    let outcome = run(vec![vec![Event::StateChanged, Event::Error]], false, "a.mp3", 1000);

    assert!(outcome.session_is_idle);
    assert!(outcome.slot_is_empty);
    assert_eq!(outcome.journal.lines.last().unwrap(), "release a.mp3");
}

#[test]
fn the_end_of_the_stream_returns_to_idle() {
    let outcome = run(vec![vec![Event::Eos]], false, "a.mp3", 1000);

    assert!(outcome.session_is_idle);
    assert!(outcome.slot_is_empty);
}

#[test]
fn a_bad_message_is_logged_and_the_loop_goes_on() {
    let bad = Event::Application(Message::Stop.to_structure("OTHER").unwrap());
    let script = vec![bad, Event::Unexpected(7), command(Message::Stop)];

    let outcome = run(vec![script], false, "a.mp3", 1000);

    assert_eq!(outcome.journal.errors, [ErrorKind::Protocol, ErrorKind::Protocol]);
    assert!(outcome.session_is_idle);
    assert_eq!(outcome.journal.lines.iter().filter(|line| *line == "pop").count(), 3);
}

#[test]
fn a_timeout_reports_the_position_and_asks_the_duration_once() {
    let script = vec![Event::StateChanged];

    let outcome = run(vec![script], false, "a.mp3", 4);

    assert_eq!(
        outcome.journal.positions,
        [
            PositionInfo { position: 10, duration: Some(11) },
            PositionInfo { position: 10, duration: Some(11) },
            PositionInfo { position: 10, duration: Some(11) },
        ]
    );
    let asked =
        outcome.journal.lines.iter().filter(|line| *line == "query_duration").count();
    assert_eq!(asked, 1);
}

#[test]
fn a_paused_session_reports_no_position() {
    let script = vec![command(Message::Pause)];

    let outcome = run(vec![script], false, "a.mp3", 5);

    assert!(outcome.journal.positions.is_empty());
}

#[test]
fn the_polls_are_bounded() {
    let outcome = run(vec![Vec::new()], false, "a.mp3", 3);

    assert_eq!(outcome.journal.lines.iter().filter(|line| *line == "pop").count(), 3);
    assert!(outcome.session_is_idle);
    assert!(outcome.slot_is_empty);
    assert_eq!(outcome.journal.lines.last().unwrap(), "release a.mp3");
}

#[test]
fn a_refused_pipeline_state_ends_the_session() {
    let script = vec![command(Message::Pause), command(Message::Pause)];

    let outcome = run(vec![script], true, "a.mp3", 1000);

    assert_eq!(
        without_pops(&outcome.journal.lines),
        ["initialize", "build a.mp3 slot_empty=true", "set_state a.mp3 Paused", "release a.mp3"]
    );
    assert_eq!(outcome.journal.errors, [ErrorKind::Engine]);
    assert!(outcome.session_is_idle);
}

#[test]
fn a_pipeline_that_cannot_be_built_returns_to_idle() {
    let outcome = run(Vec::new(), false, "a.mp3", 1000);

    assert_eq!(outcome.journal.lines, ["initialize"]);
    assert_eq!(outcome.journal.errors, [ErrorKind::Engine]);
    assert!(outcome.session_is_idle);
    assert!(outcome.slot_is_empty);
}

#[test]
fn a_next_that_cannot_be_built_returns_to_idle() {
    let scripts = vec![vec![command(Message::Next("b.mp3".to_owned()))]];

    let outcome = run(scripts, false, "a.mp3", 1000);

    assert_eq!(
        without_pops(&outcome.journal.lines),
        ["initialize", "build a.mp3 slot_empty=true", "release a.mp3"]
    );
    assert!(outcome.session_is_idle);
}

#[test]
fn a_bus_taken_from_under_the_session_ends_it() {
    struct Thief {
        slot: Arc<playback::streamer::bus::Bus_<Box<dyn EventBus>>>,
    }

    impl Pipeline for Thief {
        fn set_state(&self, _state: PipelineState) -> Result<(), AppError> {
            drop(self.slot.take());
            Ok(())
        }

        fn query_position(&self) -> Option<i64> {
            None
        }

        fn query_duration(&self) -> Option<i64> {
            None
        }

        fn release(&self) {}
    }

    struct ThiefEngine {
        slot: Arc<playback::streamer::bus::Bus_<Box<dyn EventBus>>>,
        journal: Shared,
    }

    impl Engine for ThiefEngine {
        type Bus = dyn EventBus;
        type Pipeline = dyn Pipeline;

        fn initialize(&self) -> Result<(), AppError> {
            Ok(())
        }

        fn build_pipeline(
            &self,
            _uri: &str,
        ) -> Result<(Box<dyn Pipeline>, Box<dyn EventBus>), AppError> {
            let events = vec![command(Message::Pause)];
            Ok((
                Box::new(Thief { slot: self.slot.clone() }),
                Box::new(ScriptedBus {
                    events: Mutex::new(events.into()),
                    journal: self.journal.clone(),
                }),
            ))
        }
    }

    let journal: Shared = Arc::new(Mutex::new(Journal::default()));
    let bus = new_arc::<Box<dyn EventBus>>();
    let coordinator = new_coordinator();
    coordinator.try_lock_default_duration().unwrap().get_mut().play("a.mp3", false);
    let streamer_loop = new_impl(
        bus.clone(),
        coordinator.clone(),
        Box::new(ThiefEngine { slot: bus.clone(), journal: journal.clone() }),
        Box::new(Recorder { journal: journal.clone() }),
    );

    streamer_loop.start_loop("a.mp3", 1000);

    let journal = journal.lock().unwrap();
    assert_eq!(journal.lines.iter().filter(|line| *line == "pop").count(), 1);
    assert_eq!(journal.errors, [ErrorKind::Resource, ErrorKind::Resource]);
    assert!(matches!(
        coordinator.try_lock_default_duration().unwrap().get().session(),
        SessionState::Idle
    ));
}

#[test]
fn pipeline_description_is_a_playbin_on_the_uri() {
    assert_eq!(pipeline_description("file:///a.mp3"), "playbin uri=\"file:///a.mp3\"");
    assert_eq!(pipeline_description(""), "playbin uri=\"\"");
}

#[test]
fn query_answer_takes_what_the_engine_answered() {
    assert_eq!(NO_ANSWER, -1);
    assert_eq!(query_answer(true, 10), Some(10));
    assert_eq!(query_answer(true, 0), Some(0));
    assert_eq!(query_answer(true, -1), None);
    assert_eq!(query_answer(false, 10), None);
    assert_eq!(query_answer(false, -1), None);
    assert_eq!(query_answer(true, i64::MIN), Some(i64::MIN));
}
