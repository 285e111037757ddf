use runner::session::{delta, ChangeKind, Session, SessionAction, SessionEvent, WatchState};

#[test]
fn delta_sign() {
    let ms = 1_000_000u128;
    assert_eq!(delta(500 * ms, 300 * ms), (200 * ms, false));
    assert_eq!(delta(500 * ms, 900 * ms), (400 * ms, true));
    assert_eq!(delta(500 * ms, 500 * ms), (0, false));
}

#[test]
fn report_shows_delta_against_previous_run() {
    let ms = 1_000_000u64;
    let mut s = Session::new("a.go".to_string(), false);
    assert_eq!(s.handle(SessionEvent::Changed(ChangeKind::DataModified)), SessionAction::StartRun);
    match s.handle(SessionEvent::Completed { build_nanos: 100 * ms, run_nanos: 400 * ms }) {
        SessionAction::Report(r) => {
            assert_eq!(r.elapsed, 500 * ms as u128);
            assert_eq!(r.delta, 500 * ms as u128);
            assert!(r.slower);
        }
        a => panic!("unexpected {a:?}"),
    }
    s.handle(SessionEvent::Changed(ChangeKind::Created));
    match s.handle(SessionEvent::Completed { build_nanos: 0, run_nanos: 300 * ms }) {
        SessionAction::Report(r) => {
            assert_eq!((r.elapsed, r.delta, r.slower), (300 * ms as u128, 200 * ms as u128, false));
        }
        a => panic!("unexpected {a:?}"),
    }
    s.handle(SessionEvent::Changed(ChangeKind::DataModified));
    match s.handle(SessionEvent::Completed { build_nanos: 0, run_nanos: 900 * ms }) {
        SessionAction::Report(r) => {
            assert_eq!((r.elapsed, r.delta, r.slower), (900 * ms as u128, 600 * ms as u128, true));
        }
        a => panic!("unexpected {a:?}"),
    }
    assert_eq!(s.runs(), 3);
    assert_eq!(s.last_elapsed(), 900 * ms as u128);
}

#[test]
fn back_to_back_changes_start_one_run() {
    let mut s = Session::new("a.py".to_string(), false);
    assert_eq!(s.handle(SessionEvent::Changed(ChangeKind::DataModified)), SessionAction::StartRun);
    assert_eq!(s.handle(SessionEvent::Changed(ChangeKind::DataModified)), SessionAction::Wait);
    assert_eq!(s.handle(SessionEvent::Changed(ChangeKind::Created)), SessionAction::Wait);
    assert_eq!(s.state(), WatchState::Running);
    s.handle(SessionEvent::Skipped);
    assert_eq!(s.state(), WatchState::Idle);
    assert_eq!(s.runs(), 0);
    assert_eq!(s.handle(SessionEvent::Changed(ChangeKind::Created)), SessionAction::StartRun);
}

#[test]
fn other_changes_are_ignored() {
    let mut s = Session::new("a.py".to_string(), false);
    assert_eq!(s.handle(SessionEvent::Changed(ChangeKind::Other)), SessionAction::Wait);
    assert_eq!(s.state(), WatchState::Idle);
    assert_eq!(s.handle(SessionEvent::Completed { build_nanos: 1, run_nanos: 1 }), SessionAction::Wait);
    assert_eq!(s.runs(), 0);
}

#[test]
fn scratch_file_is_removed_on_interrupt() {
    let mut s = Session::new("/tmp/runner-1.ts".to_string(), true);
    assert!(s.owns_file());
    assert_eq!(s.path(), "/tmp/runner-1.ts");
    assert_eq!(s.handle(SessionEvent::Interrupted), SessionAction::Cleanup { remove_file: true });
    assert_eq!(s.state(), WatchState::Terminated);
    assert_eq!(s.handle(SessionEvent::Interrupted), SessionAction::Wait);
    assert_eq!(s.handle(SessionEvent::Changed(ChangeKind::Created)), SessionAction::Wait);
}

#[test]
fn given_file_is_kept_on_interrupt() {
    let mut s = Session::new("main.rs".to_string(), false);
    s.handle(SessionEvent::Changed(ChangeKind::DataModified));
    assert_eq!(s.handle(SessionEvent::Interrupted), SessionAction::Cleanup { remove_file: false });
}

#[test]
fn failures_end_or_keep_the_session() {
    let mut s = Session::new("a.rb".to_string(), true);
    s.handle(SessionEvent::Changed(ChangeKind::DataModified));
    assert_eq!(s.handle(SessionEvent::Failed { ends_session: false }), SessionAction::Wait);
    assert_eq!(s.state(), WatchState::Idle);
    s.handle(SessionEvent::Changed(ChangeKind::DataModified));
    assert_eq!(
        s.handle(SessionEvent::Failed { ends_session: true }),
        SessionAction::Cleanup { remove_file: true }
    );
    assert_eq!(s.state(), WatchState::Terminated);
}
