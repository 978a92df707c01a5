use fondant::{FondantError, StoreAction, StoreEvent, StoreState};
use std::io::{Error, ErrorKind};

fn after(events: Vec<StoreEvent<String>>) -> StoreState<String> {
    let mut state = StoreState::new();
    for event in events {
        state = state.step(event);
    }
    state
}

#[test]
fn store_begins_by_resolving() {
    let state: StoreState<String> = StoreState::new();
    assert!(matches!(state, StoreState::Start));
    assert!(matches!(state.pending(), StoreAction::Resolve));
    assert!(state.finish().is_none());
}

#[test]
fn store_runs_resolve_prepare_open_encode_write() {
    let state = after(vec![StoreEvent::Located]);
    assert!(matches!(state, StoreState::Preparing));
    assert!(matches!(state.pending(), StoreAction::EnsureDir));
    let state = state.step(StoreEvent::DirReady);
    assert!(matches!(state.pending(), StoreAction::OpenForWrite));
    let state = state.step(StoreEvent::Opened);
    assert!(matches!(state.pending(), StoreAction::Encode));
    let state = state.step(StoreEvent::Encoded("port = 1\n".to_string()));
    match state.pending() {
        StoreAction::Write(text) => assert_eq!(text, "port = 1\n"),
        other => panic!("unexpected action: {:?}", other),
    }
    let state = state.step(StoreEvent::Written);
    assert!(matches!(state, StoreState::Stored));
    assert!(matches!(state.pending(), StoreAction::Finish));
    assert!(matches!(state.finish(), Some(Ok(()))));
}

#[test]
fn store_without_home_fails_with_invalid_home_dir() {
    let state = after(vec![StoreEvent::HomeDirUnknown]);
    assert!(matches!(state.pending(), StoreAction::Finish));
    assert!(matches!(state.finish(), Some(Err(FondantError::InvalidHomeDir))));
}

#[test]
fn store_directory_failure_carries_the_cause() {
    let cause = Error::new(ErrorKind::PermissionDenied, "read-only");
    let state = after(vec![StoreEvent::Located, StoreEvent::DirFailed(cause)]);
    match state.finish() {
        Some(Err(FondantError::DirCreateErr(cause))) => {
            assert_eq!(cause.kind(), ErrorKind::PermissionDenied);
            assert_eq!(cause.to_string(), "read-only");
        }
        other => panic!("unexpected outcome: {:?}", other),
    }
}

#[test]
fn store_does_not_open_before_the_directory_is_ready() {
    let state = after(vec![StoreEvent::Located, StoreEvent::Opened, StoreEvent::Written]);
    assert!(matches!(state.pending(), StoreAction::EnsureDir));
}

#[test]
fn store_open_failure_is_file_open_error() {
    let state = after(vec![StoreEvent::Located, StoreEvent::DirReady, StoreEvent::OpenFailed]);
    assert!(matches!(state.finish(), Some(Err(FondantError::FileOpenError))));
}

#[test]
fn store_encode_failure_is_config_parse_error() {
    let state = after(vec![
        StoreEvent::Located,
        StoreEvent::DirReady,
        StoreEvent::Opened,
        StoreEvent::EncodeFailed,
    ]);
    assert!(matches!(state.finish(), Some(Err(FondantError::ConfigParseError))));
}

#[test]
fn store_write_failure_is_file_write_error() {
    let state = after(vec![
        StoreEvent::Located,
        StoreEvent::DirReady,
        StoreEvent::Opened,
        StoreEvent::Encoded("x".to_string()),
        StoreEvent::WriteFailed,
    ]);
    assert!(matches!(state.finish(), Some(Err(FondantError::FileWriteError))));
}

#[test]
fn store_ignores_events_it_does_not_wait_for() {
    let state = after(vec![StoreEvent::Written, StoreEvent::Opened, StoreEvent::EncodeFailed]);
    assert!(matches!(state, StoreState::Start));
    let state = after(vec![StoreEvent::Located, StoreEvent::Located, StoreEvent::Written]);
    assert!(matches!(state, StoreState::Preparing));
    let state = after(vec![StoreEvent::Located, StoreEvent::DirReady, StoreEvent::DirReady]);
    assert!(matches!(state, StoreState::Opening));
    let state = after(vec![
        StoreEvent::Located,
        StoreEvent::DirReady,
        StoreEvent::Opened,
        StoreEvent::WriteFailed,
    ]);
    assert!(matches!(state, StoreState::Encoding));
    let state = after(vec![
        StoreEvent::Located,
        StoreEvent::DirReady,
        StoreEvent::Opened,
        StoreEvent::Encoded("a".to_string()),
        StoreEvent::Encoded("b".to_string()),
    ]);
    match state.pending() {
        StoreAction::Write(text) => assert_eq!(text, "a"),
        other => panic!("unexpected action: {:?}", other),
    }
}

#[test]
fn store_stays_ended() {
    let state = after(vec![StoreEvent::Located, StoreEvent::DirReady, StoreEvent::OpenFailed, StoreEvent::Opened]);
    assert!(matches!(state.finish(), Some(Err(FondantError::FileOpenError))));
    let state = after(vec![
        StoreEvent::Located,
        StoreEvent::DirReady,
        StoreEvent::Opened,
        StoreEvent::Encoded("x".to_string()),
        StoreEvent::Written,
        StoreEvent::WriteFailed,
        StoreEvent::HomeDirUnknown,
    ]);
    assert!(matches!(state.finish(), Some(Ok(()))));
}

#[test]
fn store_has_no_outcome_before_its_end() {
    assert!(after(vec![StoreEvent::Located]).finish().is_none());
    assert!(after(vec![StoreEvent::Located, StoreEvent::DirReady]).finish().is_none());
    assert!(after(vec![StoreEvent::Located, StoreEvent::DirReady, StoreEvent::Opened])
        .finish()
        .is_none());
    assert!(after(vec![
        StoreEvent::Located,
        StoreEvent::DirReady,
        StoreEvent::Opened,
        StoreEvent::Encoded("x".to_string())
    ])
    .finish()
    .is_none());
}
