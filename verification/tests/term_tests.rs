use slowpty::term::{SavedSettings, TermLifecycle, TermSession, KEEP_SLAVE_AFTER_FORK};

fn snapshot() -> SavedSettings {
    SavedSettings { raw: vec![1, 2, 3, 4] }
}

#[test]
fn raw_mode_needs_saved_settings() {
    let session = TermSession::new();
    assert!(session.set_raw().is_err());

    let mut session = TermSession::new();
    session.save_term_settings(snapshot());
    let derived = session.set_raw().unwrap();
    assert_eq!(derived.raw, vec![1, 2, 3, 4]);
}

#[test]
fn reset_hands_out_snapshot_exactly_once() {
    let mut session = TermSession::new();
    session.save_term_settings(snapshot());

    // First restore: the snapshot comes back to be applied.
    let first = session.reset_tty();
    assert_eq!(first.unwrap().raw, vec![1, 2, 3, 4]);
    assert_eq!(session.state, TermLifecycle::Restored);

    // Second restore: no error, and no second attribute-set call.
    let second = session.reset_tty();
    assert!(second.is_none());
    assert_eq!(session.state, TermLifecycle::Restored);

    // And it stays that way.
    assert!(session.reset_tty().is_none());
}

#[test]
fn reset_before_save_does_nothing() {
    let mut session = TermSession::new();
    assert!(session.reset_tty().is_none());
    assert_eq!(session.state, TermLifecycle::Unsaved);
}

#[test]
fn raw_mode_unavailable_after_restore() {
    let mut session = TermSession::new();
    session.save_term_settings(snapshot());
    let _ = session.reset_tty();
    assert!(session.set_raw().is_err());
}

#[test]
fn slave_handle_dropped_on_this_platform() {
    // On Linux a retained slave handle suppresses the hang-up notification
    // on the master and would leave the relay loop waiting forever.
    assert!(!KEEP_SLAVE_AFTER_FORK);
}
