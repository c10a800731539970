use terminal_manager::commands::{
    create_group, create_group_with_id, delete_group, get_active_session, get_all_groups,
    rename_group, restore_layout, save_layout, set_active_session, toggle_group_collapsed,
    GroupState,
};
use terminal_manager::error::{GroupError, PersistenceError, SpawnError};
use terminal_manager::manager::PtyManager;
use terminal_manager::persistence::{
    app_data_dir_in, get_app_data_dir, get_state_file_path, join_path, load_state, save_sessions,
    state_file_path_in,
};
use terminal_manager::pty::{PtySize, SessionHandle};
use terminal_manager::session::{AppState, SessionGroup, SessionInfo, SessionStatus};
use terminal_manager::spawner::{PtyBackend, SpawnPlan};

struct Quiet;

impl SessionHandle for Quiet {
    fn write_all(&mut self, _data: &[u8]) -> Result<(), String> {
        Ok(())
    }

    fn flush(&mut self) -> Result<(), String> {
        Ok(())
    }

    fn resize(&self, _size: PtySize) -> Result<(), String> {
        Ok(())
    }

    fn kill(&mut self) -> Result<(), String> {
        Err("already gone".to_string())
    }
}

struct QuietBackend;

impl PtyBackend for QuietBackend {
    type Handle = Quiet;
    type Reader = ();

    fn launch(&mut self, _plan: &SpawnPlan) -> Result<(Quiet, ()), SpawnError> {
        Ok((Quiet, ()))
    }
}

fn session(id: &str, name: &str, group: Option<&str>) -> SessionInfo {
    let mut info = SessionInfo::with_timestamp(
        id.to_string(),
        name.to_string(),
        "/bin/zsh".to_string(),
        "/home/alice".to_string(),
        1_700_000_000,
    );
    info.group_id = group.map(|g| g.to_string());
    info
}

#[test]
fn record_with_timestamp_is_running_and_ungrouped() {
    let info = SessionInfo::with_timestamp("s1".into(), "a".into(), "sh".into(), "/".into(), 42);
    assert_eq!(
        info,
        SessionInfo {
            id: "s1".into(),
            name: "a".into(),
            group_id: None,
            shell: "sh".into(),
            cwd: "/".into(),
            status: SessionStatus::Running,
            created_at: 42,
            startup_command: None,
        }
    );
    assert!(info.status.is_running());
    assert!(!SessionStatus::Stopped.is_running());
    assert!(!SessionStatus::Error("boom".into()).is_running());
    assert_eq!(info.clone(), info);
}

#[test]
fn new_record_is_stamped_now() {
    let before = chrono::Utc::now().timestamp();
    let info = SessionInfo::new("s1".into(), "a".into(), "sh".into(), "/".into());
    let after = chrono::Utc::now().timestamp();
    assert!(before <= info.created_at && info.created_at <= after);
    assert_eq!(SessionInfo { created_at: 0, ..info }, SessionInfo::with_timestamp(
        "s1".into(), "a".into(), "sh".into(), "/".into(), 0,
    ));
}

#[test]
fn new_group_is_expanded_at_order_zero() {
    let group = SessionGroup::new("g1".into(), "servers".into());
    assert_eq!(
        group,
        SessionGroup { id: "g1".into(), name: "servers".into(), collapsed: false, order: 0 }
    );
    assert_eq!(group.clone(), group);
}

#[test]
fn groups_are_created_in_order() {
    let mut state = GroupState::default();
    assert!(get_all_groups(&state).is_empty());
    assert_eq!(get_active_session(&state), None);
    let a = create_group_with_id(&mut state, "g1".into(), "a".into());
    let b = create_group_with_id(&mut state, "g2".into(), "b".into());
    assert_eq!(a, SessionGroup { id: "g1".into(), name: "a".into(), collapsed: false, order: 0 });
    assert_eq!(b, SessionGroup { id: "g2".into(), name: "b".into(), collapsed: false, order: 1 });
    assert_eq!(get_all_groups(&state), vec![a, b]);
}

#[test]
fn created_group_gets_a_fresh_id() {
    let mut state = GroupState::default();
    let a = create_group(&mut state, "a".into());
    let b = create_group(&mut state, "a".into());
    assert_eq!(a.id.len(), 36);
    assert_ne!(a.id, b.id);
    assert_eq!((a.order, b.order), (0, 1));
    assert_eq!(get_all_groups(&state), vec![a, b]);
}

#[test]
fn group_operations_on_an_unknown_id_fail() {
    let mut state = GroupState::default();
    create_group_with_id(&mut state, "g1".into(), "a".into());
    let before = get_all_groups(&state);
    let missing = Err(GroupError::NotFound("nope".to_string()));
    assert_eq!(delete_group(&mut state, "nope"), missing);
    assert_eq!(rename_group(&mut state, "nope", "x".into()), Err(GroupError::NotFound("nope".into())));
    assert_eq!(toggle_group_collapsed(&mut state, "nope"), Err(GroupError::NotFound("nope".into())));
    assert_eq!(get_all_groups(&state), before);
    assert_eq!(GroupError::NotFound("nope".into()).message(), "Group not found: nope");
}

#[test]
fn group_rename_toggle_delete() {
    let mut state = GroupState::default();
    create_group_with_id(&mut state, "g1".into(), "a".into());
    create_group_with_id(&mut state, "g2".into(), "b".into());
    create_group_with_id(&mut state, "g3".into(), "c".into());
    assert_eq!(rename_group(&mut state, "g2", "logs".into()), Ok(()));
    assert_eq!(toggle_group_collapsed(&mut state, "g2"), Ok(true));
    assert_eq!(toggle_group_collapsed(&mut state, "g3"), Ok(true));
    assert_eq!(toggle_group_collapsed(&mut state, "g3"), Ok(false));
    assert_eq!(delete_group(&mut state, "g1"), Ok(()));
    assert_eq!(
        get_all_groups(&state),
        vec![
            SessionGroup { id: "g2".into(), name: "logs".into(), collapsed: true, order: 1 },
            SessionGroup { id: "g3".into(), name: "c".into(), collapsed: false, order: 2 },
        ]
    );
    assert_eq!(delete_group(&mut state, "g1"), Err(GroupError::NotFound("g1".into())));
}

#[test]
fn active_session_is_set_and_cleared() {
    let mut state = GroupState::default();
    set_active_session(&mut state, Some("s1".into()));
    assert_eq!(get_active_session(&state), Some("s1".to_string()));
    set_active_session(&mut state, None);
    assert_eq!(get_active_session(&state), None);
}

#[test]
fn deleting_a_group_leaves_sessions_that_refer_to_it() {
    let mut manager: PtyManager<Quiet, ()> = PtyManager::new();
    let mut state = GroupState::default();
    create_group_with_id(&mut state, "g1".into(), "a".into());
    manager
        .spawn_session(&mut QuietBackend, &Vec::new(), "s1".into(), "a".into(), None, Some("/".into()), 24, 80)
        .unwrap();
    manager.set_session_group("s1", Some("g1".into())).unwrap();
    delete_group(&mut state, "g1").unwrap();
    assert_eq!(manager.get_session_info("s1").unwrap().group_id, Some("g1".to_string()));
}

#[test]
fn kill_ignores_a_failure_to_terminate() {
    let mut manager: PtyManager<Quiet, ()> = PtyManager::new();
    manager
        .spawn_session(&mut QuietBackend, &Vec::new(), "s1".into(), "a".into(), None, Some("/".into()), 24, 80)
        .unwrap();
    assert_eq!(manager.kill_session("s1"), Ok(()));
    assert!(manager.get_all_sessions().is_empty());
}

#[test]
fn saved_state_round_trips() {
    let sessions = vec![session("s1", "build", Some("g1")), session("s2", "logs", Some("gone"))];
    let groups = vec![SessionGroup { id: "g1".into(), name: "work".into(), collapsed: true, order: 3 }];
    let saved = save_sessions(&sessions, &groups, Some("s2".to_string()));
    assert_eq!(
        saved,
        AppState {
            sessions: sessions.clone(),
            groups: groups.clone(),
            active_session_id: Some("s2".to_string()),
        }
    );
    let loaded = load_state(Some(Ok(save_sessions(&sessions, &groups, Some("s2".to_string()))))).unwrap();
    assert_eq!(loaded, saved);

    let mut manager: PtyManager<Quiet, ()> = PtyManager::new();
    let mut state = GroupState::default();
    restore_layout(&mut state, Ok::<AppState, PersistenceError>(loaded));
    assert_eq!(get_all_groups(&state), groups);
    assert_eq!(get_active_session(&state), Some("s2".to_string()));
    assert!(manager.get_all_sessions().is_empty());
    assert_eq!(manager.kill_session("s1"), Ok(()));
}

#[test]
fn load_without_a_file_is_the_empty_state() {
    let state = load_state(None).unwrap();
    assert_eq!(state, AppState { sessions: vec![], groups: vec![], active_session_id: None });
    assert_eq!(state, AppState::default());
}

#[test]
fn load_passes_a_parse_failure_on() {
    let r = load_state(Some(Err(PersistenceError::Parse("expected value at line 1".into()))));
    assert_eq!(r, Err(PersistenceError::Parse("expected value at line 1".into())));
    assert_eq!(
        r.unwrap_err().message(),
        "Failed to parse state file: expected value at line 1"
    );
}

#[test]
fn failed_load_at_startup_leaves_the_state_alone() {
    let mut state = GroupState::default();
    create_group_with_id(&mut state, "g1".into(), "a".into());
    set_active_session(&mut state, Some("s1".into()));
    restore_layout(&mut state, Err::<AppState, PersistenceError>(PersistenceError::Read("denied".into())));
    assert_eq!(get_all_groups(&state).len(), 1);
    assert_eq!(get_active_session(&state), Some("s1".to_string()));
}

#[test]
fn save_layout_collects_sessions_groups_and_active_id() {
    let mut manager: PtyManager<Quiet, ()> = PtyManager::new();
    let mut state = GroupState::default();
    let a = manager
        .spawn_session(&mut QuietBackend, &Vec::new(), "s1".into(), "a".into(), None, Some("/".into()), 24, 80)
        .unwrap()
        .info;
    let b = manager
        .spawn_session(&mut QuietBackend, &Vec::new(), "s2".into(), "b".into(), None, Some("/".into()), 24, 80)
        .unwrap()
        .info;
    let group = create_group_with_id(&mut state, "g1".into(), "work".into());
    set_active_session(&mut state, Some("s2".into()));
    let layout = save_layout(&manager, &state);
    assert_eq!(
        layout,
        AppState { sessions: vec![a, b], groups: vec![group], active_session_id: Some("s2".into()) }
    );
}

#[test]
fn saved_layout_shows_a_created_session_in_its_group() {
    let mut manager: PtyManager<Quiet, ()> = PtyManager::new();
    let state = GroupState::default();
    let created = terminal_manager::commands::create_session(
        &mut manager,
        &mut QuietBackend,
        &Vec::new(),
        "web".into(),
        None,
        Some("/".into()),
        Some("no-such-group".into()),
        None,
        None,
        None,
    )
    .unwrap();
    let layout = save_layout(&manager, &state);
    assert_eq!(layout.sessions.len(), 1);
    assert_eq!(layout.sessions[0].group_id, Some("no-such-group".to_string()));
    assert_eq!(layout.sessions[0], created.info);
}

#[test]
fn persistence_errors_name_the_step() {
    assert_eq!(PersistenceError::CreateDir("x".into()).message(), "Failed to create data dir: x");
    assert_eq!(PersistenceError::Read("x".into()).message(), "Failed to read state file: x");
    assert_eq!(PersistenceError::Parse("x".into()).message(), "Failed to parse state file: x");
    assert_eq!(PersistenceError::Serialize("x".into()).message(), "Failed to serialize state: x");
    assert_eq!(PersistenceError::Write("x".into()).message(), "Failed to write state file: x");
}

#[test]
fn paths_are_joined_with_one_separator() {
    assert_eq!(join_path("/home/alice", "state.json"), "/home/alice/state.json");
    assert_eq!(join_path("/home/alice/", "state.json"), "/home/alice/state.json");
    assert_eq!(join_path("", "state.json"), "state.json");
    assert_eq!(join_path("/", "etc"), "/etc");
    assert_eq!(join_path(".", "TerminalManager"), "./TerminalManager");
    assert_eq!(join_path("/home/alice", "/etc"), "/etc");
    assert_eq!(join_path("/home/alice", ""), "/home/alice/");
    assert_eq!(join_path("/données", "é"), "/données/é");
    for (base, leaf) in [("/a", "b"), ("/a/", "b"), ("", "b"), ("/a", "/b"), ("a", ""), ("/", "x")] {
        let expected = std::path::Path::new(base).join(leaf);
        assert_eq!(std::path::Path::new(&join_path(base, leaf)), expected.as_path());
    }
}

#[test]
fn state_file_lives_in_the_application_directory() {
    assert_eq!(
        app_data_dir_in(Some("/home/alice/.local/share".into())),
        "/home/alice/.local/share/TerminalManager"
    );
    assert_eq!(app_data_dir_in(None), "./TerminalManager");
    assert_eq!(
        state_file_path_in(Some("/home/alice/.local/share".into())),
        "/home/alice/.local/share/TerminalManager/state.json"
    );
    assert_eq!(state_file_path_in(None), "./TerminalManager/state.json");
}

#[test]
fn state_file_path_follows_the_data_directory() {
    let base = dirs::data_dir().map(|p| p.to_string_lossy().into_owned());
    assert_eq!(get_app_data_dir(), app_data_dir_in(base.clone()));
    assert_eq!(get_state_file_path(), state_file_path_in(base));
    assert!(get_state_file_path().ends_with("TerminalManager/state.json"));
}
