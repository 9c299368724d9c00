use texdesk::failure::{Failure, FailureKind};
use texdesk::watch::{change_signal_name, start_watch, WatchEvent, WatchReaction, WatchSession};

#[test]
fn watch_that_was_registered_gives_a_session_on_its_root() {
    let r = start_watch("/home/u/project".to_string(), Ok(()));
    assert_eq!(r, Ok(WatchSession { root: "/home/u/project".to_string() }));
}

#[test]
fn watch_that_could_not_be_registered_is_reported_at_once() {
    let r = start_watch(
        "/nowhere".to_string(),
        Err("No such file or directory (os error 2)".to_string()),
    );
    assert_eq!(
        r,
        Err(Failure {
            kind: FailureKind::WatchSetupFailure,
            message: "No such file or directory (os error 2)".to_string(),
        })
    );
}

#[test]
fn exhausted_watch_limit_is_a_setup_failure() {
    let r = start_watch("/big".to_string(), Err("OS file watch limit reached".to_string()));
    let f = r.unwrap_err();
    assert_eq!(f.kind, FailureKind::WatchSetupFailure);
    assert_eq!(f.message, "OS file watch limit reached");
}

#[test]
fn every_change_is_signalled_on_its_own() {
    let session = start_watch("/home/u/project".to_string(), Ok(())).unwrap();
    let events = vec![WatchEvent::Changed, WatchEvent::Changed, WatchEvent::Changed];
    let mut signals = 0;
    for event in events {
        if session.on_event(event) == WatchReaction::Notify {
            signals += 1;
        }
    }
    assert_eq!(signals, 3);
}

#[test]
fn unreadable_event_is_dropped_and_the_watch_goes_on() {
    let session = start_watch("/home/u/project".to_string(), Ok(())).unwrap();
    let first = session.on_event(WatchEvent::Unreadable { reason: "overflow".to_string() });
    assert_eq!(first, WatchReaction::Skip { reason: "overflow".to_string() });
    assert_eq!(session, WatchSession { root: "/home/u/project".to_string() });
    let second = session.on_event(WatchEvent::Changed);
    assert_eq!(second, WatchReaction::Notify);
}

#[test]
fn creating_a_file_under_a_watched_root_raises_a_signal() {
    let session = start_watch("/d".to_string(), Ok(())).unwrap();
    let reactions: Vec<WatchReaction> =
        vec![WatchEvent::Changed].into_iter().map(|e| session.on_event(e)).collect();
    assert!(reactions.iter().any(|r| *r == WatchReaction::Notify));
}

#[test]
fn the_change_signal_has_its_name() {
    assert_eq!(change_signal_name(), "fs-change");
}
