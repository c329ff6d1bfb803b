use playback::streamer::coordinator::{
    new_coordinator, report_relaunched, report_session_ended, Coordinator, Directive, EndPlan,
    SessionState, STOP_TIMEOUT_SECONDS,
};
use playback::local::mutex_lock_timeout::MutexLockTimeout;
use playback::streamer::message::Message;
use playback::streamer::streamer_loop::Exit;

fn is_active(coordinator: &Coordinator, uri: &str) -> bool {
    matches!(coordinator.session(), SessionState::Active(active) if active == uri)
}

#[test]
fn streamer_test_is_running_false() {
    let mut streamer = Coordinator::new();

    assert!(!streamer.is_running(false));
}

#[test]
fn streamer_test_is_running_true() {
    let mut streamer = Coordinator::new();
    streamer.play("uri", false);

    assert!(streamer.is_running(false));
}

#[test]
fn streamer_test_start_thread() {
    let mut streamer = Coordinator::new();

    let directive = streamer.play("uri", false);

    assert!(matches!(directive, Directive::Spawn(uri) if uri == "uri"));
    let plan = streamer.end(false);
    assert!(plan.send_shutdown);
    assert!(matches!(streamer.session(), SessionState::Ended));
}

#[test]
fn streamer_test_play_on_wait() {
    let mut streamer = Coordinator::new();

    let directive = streamer.play("new_uri", false);

    assert!(matches!(directive, Directive::Spawn(_)));
    assert!(matches!(streamer.session(), SessionState::Active(_)));
    assert!(if let SessionState::Active(uri) = streamer.session() {
        uri.eq("new_uri")
    } else {
        false
    });
}

#[test]
fn streamer_test_play_on_play() {
    let mut streamer = Coordinator::new();
    streamer.play("old_uri", false);

    let directive = streamer.play("new_uri", false);

    let message = match directive {
        Directive::Send(message) => message,
        other => panic!("no message is sent: {other:?}"),
    };
    assert!(matches!(message, Message::Next(_)));
    assert!(if let Message::Next(uri) = message {
        uri.eq("new_uri")
    } else {
        false
    });
}

#[test]
fn streamer_test_end_on_play() {
    let mut streamer = Coordinator::new();
    streamer.play("uri", false);

    let plan = streamer.end(false);

    assert!(matches!(streamer.session(), SessionState::Ended));
    assert_eq!(plan, EndPlan { send_shutdown: true, join: true, timeout_seconds: 5 });
}

#[test]
fn streamer_test_end_on_wait() {
    let mut streamer = Coordinator::new();

    let plan = streamer.end(false);

    assert!(matches!(streamer.session(), SessionState::Ended));
    assert_eq!(plan, EndPlan { send_shutdown: false, join: false, timeout_seconds: 5 });
}

#[test]
fn stop_timeout_is_five_seconds() {
    assert_eq!(STOP_TIMEOUT_SECONDS, 5);
}

#[test]
fn a_new_coordinator_is_idle() {
    let coordinator = Coordinator::new();

    assert!(matches!(coordinator.session(), SessionState::Idle));
    assert!(!coordinator.is_ended());
}

#[test]
fn play_on_idle_spawns_and_is_active_and_running() {
    let mut coordinator = Coordinator::new();

    let directive = coordinator.play("a.mp3", false);

    assert!(matches!(directive, Directive::Spawn(uri) if uri == "a.mp3"));
    assert!(is_active(&coordinator, "a.mp3"));
    assert!(coordinator.is_running(false));
}

#[test]
fn play_while_active_sends_next_and_the_same_worker_goes_on() {
    let mut coordinator = Coordinator::new();
    coordinator.play("a.mp3", false);

    let directive = coordinator.play("b.mp3", false);
    assert!(matches!(directive, Directive::Send(Message::Next(uri)) if uri == "b.mp3"));
    assert!(is_active(&coordinator, "a.mp3"));

    coordinator.session_ended(&Exit::Next("b.mp3".to_owned()));
    assert!(matches!(coordinator.session(), SessionState::PendingNext(uri) if uri == "b.mp3"));
    assert!(coordinator.is_running(false));

    coordinator.relaunched("b.mp3");
    assert!(is_active(&coordinator, "b.mp3"));
    assert!(coordinator.is_running(false));
}

#[test]
fn pause_and_stop_on_idle_do_nothing() {
    let mut coordinator = Coordinator::new();

    assert!(matches!(coordinator.pause(false), Directive::Nothing));
    assert!(matches!(coordinator.stop(false), Directive::Nothing));
    assert!(matches!(coordinator.pause(true), Directive::Nothing));
    assert!(matches!(coordinator.stop(true), Directive::Nothing));
    assert!(matches!(coordinator.session(), SessionState::Idle));
}

#[test]
fn pause_and_stop_while_active_are_sent() {
    let mut coordinator = Coordinator::new();
    coordinator.play("a.mp3", false);

    assert!(matches!(coordinator.pause(false), Directive::Send(Message::Pause)));
    assert!(matches!(coordinator.pause(false), Directive::Send(Message::Pause)));
    assert!(matches!(coordinator.stop(false), Directive::Send(Message::Stop)));
    assert!(is_active(&coordinator, "a.mp3"));
}

#[test]
fn stop_while_active_returns_to_idle_and_is_not_running() {
    let mut coordinator = Coordinator::new();
    coordinator.play("a.mp3", false);
    assert!(matches!(coordinator.stop(false), Directive::Send(Message::Stop)));

    coordinator.session_ended(&Exit::Stop);
    assert!(matches!(coordinator.session(), SessionState::Idle));

    assert!(!coordinator.is_running(true));
    assert!(matches!(coordinator.session(), SessionState::Idle));
}

#[test]
fn a_finished_worker_is_reaped_and_the_next_play_spawns() {
    let mut coordinator = Coordinator::new();
    coordinator.play("a.mp3", false);

    assert!(!coordinator.is_running(true));
    assert!(matches!(coordinator.session(), SessionState::Idle));

    assert!(matches!(coordinator.play("b.mp3", true), Directive::Spawn(uri) if uri == "b.mp3"));
    assert!(is_active(&coordinator, "b.mp3"));
}

#[test]
fn play_on_a_finished_worker_spawns_anew() {
    let mut coordinator = Coordinator::new();
    coordinator.play("a.mp3", false);

    let directive = coordinator.play("b.mp3", true);

    assert!(matches!(directive, Directive::Spawn(uri) if uri == "b.mp3"));
}

#[test]
fn after_the_end_play_is_rejected() {
    let mut coordinator = Coordinator::new();
    coordinator.play("a.mp3", false);
    coordinator.end(false);

    assert!(matches!(coordinator.play("b.mp3", false), Directive::Nothing));
    assert!(matches!(coordinator.play("b.mp3", true), Directive::Nothing));
    assert!(matches!(coordinator.pause(false), Directive::Nothing));
    assert!(matches!(coordinator.stop(false), Directive::Nothing));
    assert!(!coordinator.is_running(false));
    assert!(coordinator.is_ended());
}

#[test]
fn end_twice_asks_for_nothing_the_second_time() {
    let mut coordinator = Coordinator::new();
    coordinator.play("a.mp3", false);

    let first = coordinator.end(false);
    let second = coordinator.end(false);

    assert!(first.send_shutdown && first.join);
    assert_eq!(second, EndPlan { send_shutdown: false, join: false, timeout_seconds: 5 });
    assert!(coordinator.is_ended());
}

#[test]
fn end_of_a_finished_worker_waits_for_nothing() {
    let mut coordinator = Coordinator::new();
    coordinator.play("a.mp3", false);

    let plan = coordinator.end(true);

    assert_eq!(plan, EndPlan { send_shutdown: false, join: false, timeout_seconds: 5 });
    assert!(coordinator.is_ended());
}

#[test]
fn reports_after_the_end_change_nothing() {
    let mut coordinator = Coordinator::new();
    coordinator.play("a.mp3", false);
    coordinator.end(false);

    coordinator.session_ended(&Exit::Stop);
    coordinator.relaunched("a.mp3");
    coordinator.session_ended(&Exit::Next("b.mp3".to_owned()));

    assert!(coordinator.is_ended());
}

#[test]
fn a_shutdown_report_ends_the_coordinator() {
    let mut coordinator = Coordinator::new();
    coordinator.play("a.mp3", false);

    coordinator.session_ended(&Exit::Shutdown);

    assert!(coordinator.is_ended());
    assert!(!coordinator.is_running(false));
}

#[test]
fn relaunched_on_another_uri_changes_nothing() {
    let mut coordinator = Coordinator::new();
    coordinator.play("a.mp3", false);
    coordinator.session_ended(&Exit::Next("b.mp3".to_owned()));

    coordinator.relaunched("c.mp3");

    assert!(matches!(coordinator.session(), SessionState::PendingNext(uri) if uri == "b.mp3"));
}

#[test]
fn reports_on_an_idle_coordinator_change_nothing() {
    let mut coordinator = Coordinator::new();

    coordinator.session_ended(&Exit::Next("b.mp3".to_owned()));
    coordinator.relaunched("b.mp3");
    coordinator.session_ended(&Exit::Shutdown);

    assert!(matches!(coordinator.session(), SessionState::Idle));
}

#[test]
fn shared_coordinator_takes_reports() {
    let shared = new_coordinator();
    shared.try_lock_default_duration().unwrap().get_mut().play("a.mp3", false);

    report_session_ended(&shared, &Exit::Next("b.mp3".to_owned())).unwrap();
    assert!(matches!(
        shared.try_lock_default_duration().unwrap().get().session(),
        SessionState::PendingNext(uri) if uri == "b.mp3"
    ));

    report_relaunched(&shared, "b.mp3").unwrap();
    assert!(is_active(shared.try_lock_default_duration().unwrap().get(), "b.mp3"));

    report_session_ended(&shared, &Exit::Stop).unwrap();
    assert!(matches!(
        shared.try_lock_default_duration().unwrap().get().session(),
        SessionState::Idle
    ));
}
