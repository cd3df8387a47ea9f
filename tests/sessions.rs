use fs_events::{
    FsEvent, FsEventKind, LoopState, LoopStep, OpenAction, OpenSession, OpenStage, WatchError,
    WatchLoop,
};

fn denied(p: &str) -> WatchError {
    WatchError::Construction(format!("read access to {} denied", p))
}

fn event(kind: FsEventKind, path: &str) -> FsEvent {
    FsEvent { kind, paths: vec![path.to_string()] }
}

#[test]
fn open_over_no_paths_is_ready() {
    let (s, a) = OpenSession::start(0, true);
    assert!(matches!(a, OpenAction::Ready));
    assert_eq!(s.stage, OpenStage::Done);
    assert_eq!(s.registered, 0);
    assert!(!s.is_waiting());
}

#[test]
fn open_authorizes_each_path_before_registering_it() {
    let (mut s, a) = OpenSession::start(2, true);
    assert!(matches!(a, OpenAction::Authorize(0)));
    assert!(matches!(s.advance(Ok(())), OpenAction::Register(0)));
    assert!(matches!(s.advance(Ok(())), OpenAction::Authorize(1)));
    assert!(matches!(s.advance(Ok(())), OpenAction::Register(1)));
    assert!(matches!(s.advance(Ok(())), OpenAction::Ready));
    assert_eq!(s.registered, 2);
    assert_eq!(s.stage, OpenStage::Done);
}

#[test]
fn open_without_authorization_registers_in_order() {
    let (mut s, a) = OpenSession::start(3, false);
    assert!(matches!(a, OpenAction::Register(0)));
    assert!(matches!(s.advance(Ok(())), OpenAction::Register(1)));
    assert!(matches!(s.advance(Ok(())), OpenAction::Register(2)));
    assert!(matches!(s.advance(Ok(())), OpenAction::Ready));
    assert_eq!(s.registered, 3);
}

#[test]
fn open_rejected_first_path_registers_nothing() {
    let (mut s, a) = OpenSession::start(3, true);
    assert!(matches!(a, OpenAction::Authorize(0)));
    match s.advance(Err(denied("/secret"))) {
        OpenAction::Fail(WatchError::Construction(m)) => {
            assert_eq!(m, "read access to /secret denied")
        }
        other => panic!("unexpected {:?}", other),
    }
    assert_eq!(s.registered, 0);
    assert_eq!(s.stage, OpenStage::Failed);
    assert!(!s.is_waiting());
}

#[test]
fn open_rejection_stops_later_paths() {
    let (mut s, _) = OpenSession::start(3, true);
    s.advance(Ok(()));
    s.advance(Ok(()));
    assert!(matches!(s.advance(Err(denied("/b"))), OpenAction::Fail(_)));
    assert_eq!(s.registered, 1);
    assert!(!s.is_waiting());
}

#[test]
fn open_registration_failure_fails() {
    let (mut s, _) = OpenSession::start(2, false);
    let e = WatchError::Construction("no such file".to_string());
    assert!(matches!(s.advance(Err(e)), OpenAction::Fail(WatchError::Construction(_))));
    assert_eq!(s.registered, 0);
}

#[test]
fn loop_returns_modify_after_any_and_access() {
    let mut l = WatchLoop::new();
    assert!(matches!(l.on_poll(Some(Ok(event(FsEventKind::Any, "/a")))), LoopStep::PollAgain));
    assert!(matches!(l.on_poll(Some(Ok(event(FsEventKind::Access, "/a")))), LoopStep::PollAgain));
    match l.on_poll(Some(Ok(event(FsEventKind::Modify, "/a")))) {
        LoopStep::Return(e) => assert_eq!(e.kind, FsEventKind::Modify),
        other => panic!("unexpected {:?}", other),
    }
    assert_eq!(l.state, LoopState::Finished);
}

#[test]
fn loop_reopens_after_end_of_stream() {
    let mut l = WatchLoop::new();
    assert!(matches!(l.on_poll(Some(Ok(event(FsEventKind::Access, "/a")))), LoopStep::PollAgain));
    assert!(matches!(l.on_poll(None), LoopStep::Reopen));
    assert_eq!(l.state, LoopState::Reopening);
    l.reopened();
    assert_eq!(l.state, LoopState::Watching);
    match l.on_poll(Some(Ok(event(FsEventKind::Create, "/a/new")))) {
        LoopStep::Return(e) => {
            assert_eq!(e.kind, FsEventKind::Create);
            assert_eq!(e.paths, vec!["/a/new".to_string()]);
        }
        other => panic!("unexpected {:?}", other),
    }
}

#[test]
fn loop_fails_on_error_item() {
    let mut l = WatchLoop::new();
    match l.on_poll(Some(Err(WatchError::Producer("overflow".to_string())))) {
        LoopStep::Fail(WatchError::Producer(m)) => assert_eq!(m, "overflow"),
        other => panic!("unexpected {:?}", other),
    }
    assert_eq!(l.state, LoopState::Finished);
}

#[test]
fn loop_returns_remove() {
    let mut l = WatchLoop::new();
    assert!(matches!(
        l.on_poll(Some(Ok(event(FsEventKind::Remove, "/gone")))),
        LoopStep::Return(_)
    ));
}
