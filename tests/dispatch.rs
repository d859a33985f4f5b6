use lib_dispatch::{
    settle_join, AFPlugin, AFPluginEventResponse, AFPluginRegistry, DispatchAction, DispatchError,
    DispatchEvent, DispatchSession, ErrorKind,
};

fn plugin(name: &str, events: &[u64]) -> AFPlugin {
    AFPlugin { name: name.to_string(), events: events.to_vec() }
}

fn handler_of(action: &DispatchAction) -> usize {
    match action {
        DispatchAction::RunHandler { plugin } => *plugin,
        _ => panic!("expected the handler to be run"),
    }
}

fn completed(action: DispatchAction) -> AFPluginEventResponse {
    match action {
        DispatchAction::Complete(r) => r,
        _ => panic!("expected the dispatch to complete"),
    }
}

fn callback_arg(action: DispatchAction) -> AFPluginEventResponse {
    match action {
        DispatchAction::RunCallback(r) => r,
        _ => panic!("expected the callback to be run"),
    }
}

#[test]
fn core_plugin_returns_ok_payload() {
    let registry = AFPluginRegistry::new(vec![plugin("Core", &[1])]);
    let (mut session, action) = DispatchSession::start(&registry, 1, false);
    let i = handler_of(&action);
    assert_eq!(registry.plugin(i).name, "Core");
    let done = session.on_event(DispatchEvent::HandlerReturned(Ok(b"ok".to_vec())));
    assert_eq!(completed(done), AFPluginEventResponse::Success(b"ok".to_vec()));
    assert!(session.is_done());
}

#[test]
fn unregistered_key_gives_handle_not_found() {
    let registry = AFPluginRegistry::new(vec![plugin("A", &[1]), plugin("B", &[2])]);
    let (session, action) = DispatchSession::start(&registry, 3, false);
    let r = completed(action);
    assert_eq!(r, AFPluginEventResponse::Failure(DispatchError::HandleNotFound(3)));
    assert!(session.is_done());
    assert_eq!(session.key(), 3);
}

#[test]
fn handler_error_reaches_callback_and_caller() {
    let registry = AFPluginRegistry::new(vec![plugin("Quota", &[5])]);
    let (mut session, action) = DispatchSession::start(&registry, 5, true);
    assert_eq!(handler_of(&action), 0);
    let next = session.on_event(DispatchEvent::HandlerReturned(Err("quota_exceeded".to_string())));
    let seen = callback_arg(next);
    let expected =
        AFPluginEventResponse::Failure(DispatchError::HandlerError("quota_exceeded".to_string()));
    assert_eq!(seen, expected);
    assert!(!session.is_done());
    let returned = completed(session.on_event(DispatchEvent::CallbackFinished));
    assert_eq!(returned, seen);
    assert!(session.is_done());
}

#[test]
fn each_key_goes_to_its_own_plugin() {
    let registry =
        AFPluginRegistry::new(vec![plugin("A", &[1, 4]), plugin("B", &[2]), plugin("C", &[3])]);
    assert_eq!(registry.len(), 3);
    for (key, name) in [(1u64, "A"), (2, "B"), (3, "C"), (4, "A")] {
        let (_, action) = DispatchSession::start(&registry, key, false);
        assert_eq!(registry.plugin(handler_of(&action)).name, name);
    }
}

#[test]
fn later_registration_of_a_key_wins() {
    let registry = AFPluginRegistry::new(vec![plugin("First", &[7, 8]), plugin("Second", &[7])]);
    assert_eq!(registry.lookup(7), Some(1));
    assert_eq!(registry.lookup(8), Some(0));
    assert_eq!(registry.lookup(9), None);
}

#[test]
fn empty_registry_misses_every_key() {
    let registry = AFPluginRegistry::new(Vec::new());
    assert_eq!(registry.len(), 0);
    for key in [0u64, 1, u64::MAX] {
        assert_eq!(registry.lookup(key), None);
        let (_, action) = DispatchSession::start(&registry, key, false);
        assert_eq!(completed(action), AFPluginEventResponse::Failure(DispatchError::HandleNotFound(key)));
    }
}

#[test]
fn unregistered_key_with_callback_runs_callback_first() {
    let registry = AFPluginRegistry::new(vec![plugin("A", &[1])]);
    let (mut session, action) = DispatchSession::start(&registry, 42, true);
    let seen = callback_arg(action);
    assert_eq!(seen, AFPluginEventResponse::Failure(DispatchError::HandleNotFound(42)));
    let returned = completed(session.on_event(DispatchEvent::CallbackFinished));
    assert_eq!(returned, seen);
}

#[test]
fn factory_failure_is_internal_error() {
    let registry = AFPluginRegistry::new(vec![plugin("A", &[1])]);
    let (mut session, _) = DispatchSession::start(&registry, 1, false);
    let r = completed(session.on_event(DispatchEvent::FactoryFailed("no state".to_string())));
    match r {
        AFPluginEventResponse::Failure(e) => {
            assert_eq!(e.kind(), ErrorKind::Internal);
            assert_eq!(e, DispatchError::Internal("no state".to_string()));
        },
        _ => panic!("expected an error response"),
    }
}

#[test]
fn events_out_of_phase_are_ignored() {
    let registry = AFPluginRegistry::new(vec![plugin("A", &[1])]);
    let (mut session, _) = DispatchSession::start(&registry, 1, false);
    assert!(matches!(session.on_event(DispatchEvent::CallbackFinished), DispatchAction::Ignore));
    let r = completed(session.on_event(DispatchEvent::HandlerReturned(Ok(vec![1, 2]))));
    assert_eq!(r, AFPluginEventResponse::Success(vec![1, 2]));
    assert!(matches!(
        session.on_event(DispatchEvent::HandlerReturned(Ok(vec![3]))),
        DispatchAction::Ignore
    ));
    assert!(matches!(session.on_event(DispatchEvent::CallbackFinished), DispatchAction::Ignore));
}

#[test]
fn interleaved_dispatches_keep_their_own_results() {
    let registry = AFPluginRegistry::new(vec![plugin("A", &[1]), plugin("B", &[2]), plugin("C", &[3])]);
    let mut sessions = Vec::new();
    for key in [1u64, 2, 3] {
        let (s, action) = DispatchSession::start(&registry, key, true);
        assert_eq!(handler_of(&action) as u64, key - 1);
        sessions.push(s);
    }
    let mut results = vec![None, None, None];
    for i in [2usize, 0, 1] {
        let payload = vec![i as u8];
        let seen = callback_arg(sessions[i].on_event(DispatchEvent::HandlerReturned(Ok(payload))));
        results[i] = Some(seen);
    }
    for i in [1usize, 2, 0] {
        let r = completed(sessions[i].on_event(DispatchEvent::CallbackFinished));
        assert_eq!(Some(r.clone()), results[i]);
        assert_eq!(r, AFPluginEventResponse::Success(vec![i as u8]));
    }
}

#[test]
fn join_failure_becomes_join_error_response() {
    let r = settle_join(Err("task panicked".to_string()));
    assert_eq!(r, AFPluginEventResponse::Failure(DispatchError::JoinError("task panicked".to_string())));
    assert!(!r.is_success());
    let ok = settle_join(Ok(AFPluginEventResponse::Success(b"x".to_vec())));
    assert_eq!(ok, AFPluginEventResponse::Success(b"x".to_vec()));
    assert!(ok.is_success());
}

#[test]
fn duplicate_keeps_the_value() {
    let a = AFPluginEventResponse::Success(vec![9, 8, 7]);
    assert_eq!(a.duplicate(), a);
    let b = AFPluginEventResponse::Failure(DispatchError::HandleNotFound(11));
    assert_eq!(b.duplicate(), b);
    assert_eq!(DispatchError::JoinError("j".to_string()).kind(), ErrorKind::JoinError);
    assert_eq!(DispatchError::HandleNotFound(1).kind(), ErrorKind::HandleNotFound);
    assert_eq!(DispatchError::HandlerError("h".to_string()).kind(), ErrorKind::HandlerError);
}

#[test]
fn request_keeps_key_and_payload() {
    let r = lib_dispatch::AFPluginRequest::new(5, vec![1, 2, 3]);
    assert_eq!(r.event, 5);
    assert_eq!(r.payload, vec![1, 2, 3]);
    let registry = AFPluginRegistry::new(vec![plugin("Core", &[5])]);
    let (_, action) = DispatchSession::start(&registry, r.event, false);
    assert_eq!(handler_of(&action), 0);
}
