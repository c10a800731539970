use terminal_manager::error::{prefixed, IoError, SessionError, SpawnError};
use terminal_manager::manager::{flush_failed, resize_failed, write_failed};
use terminal_manager::session::{clone_groups, clone_opt, clone_sessions, SessionGroup, SessionInfo};

#[test]
fn prefix_comes_before_the_cause() {
    assert_eq!(prefixed("Write error: ", "broken pipe"), "Write error: broken pipe");
    assert_eq!(prefixed("", ""), "");
    assert_eq!(prefixed("é", "ü"), "éü");
}

#[test]
fn spawn_errors_name_the_step() {
    assert_eq!(SpawnError::OpenPty("x".into()).message(), "Failed to open PTY: x");
    assert_eq!(SpawnError::SpawnShell("x".into()).message(), "Failed to spawn shell: x");
    assert_eq!(SpawnError::TakeWriter("x".into()).message(), "Failed to get writer: x");
    assert_eq!(SpawnError::CloneReader("x".into()).message(), "Failed to clone reader: x");
}

#[test]
fn io_errors_name_the_operation() {
    assert_eq!(IoError::Write("x".into()).message(), "Write error: x");
    assert_eq!(IoError::Flush("x".into()).message(), "Flush error: x");
    assert_eq!(IoError::Resize("x".into()).message(), "Resize error: x");
}

#[test]
fn session_errors_carry_their_cause() {
    assert_eq!(SessionError::NotFound("abc".into()).message(), "Session not found: abc");
    assert_eq!(
        SessionError::Spawn(SpawnError::OpenPty("denied".into())).message(),
        "Failed to open PTY: denied"
    );
    assert_eq!(SessionError::Io(IoError::Resize("bad fd".into())).message(), "Resize error: bad fd");
}

#[test]
fn outcomes_of_the_handle_become_io_errors() {
    assert_eq!(write_failed(Ok(())), Ok(()));
    assert_eq!(flush_failed(Ok(())), Ok(()));
    assert_eq!(resize_failed(Ok(())), Ok(()));
    assert_eq!(write_failed(Err("w".into())), Err(SessionError::Io(IoError::Write("w".into()))));
    assert_eq!(flush_failed(Err("f".into())), Err(SessionError::Io(IoError::Flush("f".into()))));
    assert_eq!(resize_failed(Err("r".into())), Err(SessionError::Io(IoError::Resize("r".into()))));
}

#[test]
fn copies_equal_what_they_copy() {
    assert_eq!(clone_opt(&Some("a".to_string())), Some("a".to_string()));
    assert_eq!(clone_opt(&None), None);
    let sessions = vec![
        SessionInfo::with_timestamp("s1".into(), "a".into(), "sh".into(), "/".into(), 1),
        SessionInfo::with_timestamp("s2".into(), "b".into(), "zsh".into(), "/tmp".into(), 2),
    ];
    assert_eq!(clone_sessions(&sessions), sessions);
    assert!(clone_sessions(&[]).is_empty());
    let groups = vec![SessionGroup::new("g1".into(), "x".into())];
    assert_eq!(clone_groups(&groups), groups);
}
