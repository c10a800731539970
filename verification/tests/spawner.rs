use terminal_manager::pty::PtySize;
use terminal_manager::spawner::{
    child_environment, lookup, resolve_cwd, resolve_shell, SpawnPlan,
};

fn pair(key: &str, value: &str) -> (String, String) {
    (key.to_string(), value.to_string())
}

#[test]
fn shell_is_explicit_then_host_then_fallback() {
    assert_eq!(resolve_shell(Some("/bin/fish".into()), Some("/bin/bash".into())), "/bin/fish");
    assert_eq!(resolve_shell(Some("/bin/fish".into()), None), "/bin/fish");
    assert_eq!(resolve_shell(None, Some("/bin/bash".into())), "/bin/bash");
    assert_eq!(resolve_shell(None, None), "/bin/zsh");
}

#[test]
fn cwd_is_explicit_then_home_then_root() {
    assert_eq!(resolve_cwd(Some("/srv".into()), Some("/home/alice".into())), "/srv");
    assert_eq!(resolve_cwd(Some("/srv".into()), None), "/srv");
    assert_eq!(resolve_cwd(None, Some("/home/alice".into())), "/home/alice");
    assert_eq!(resolve_cwd(None, None), "/");
}

#[test]
fn lookup_finds_the_last_assignment() {
    let vars = vec![pair("A", "1"), pair("B", "2"), pair("A", "3")];
    assert_eq!(lookup(&vars, "A"), Some("3".to_string()));
    assert_eq!(lookup(&vars, "B"), Some("2".to_string()));
    assert_eq!(lookup(&vars, "C"), None);
    assert_eq!(lookup(&Vec::new(), "A"), None);
}

#[test]
fn child_environment_inherits_then_overrides() {
    let host = vec![pair("PATH", "/usr/bin"), pair("TERM", "dumb"), pair("LANG", "C")];
    let env = child_environment(&host);
    assert_eq!(
        env,
        vec![
            pair("PATH", "/usr/bin"),
            pair("TERM", "dumb"),
            pair("LANG", "C"),
            pair("TERM", "xterm-256color"),
            pair("COLORTERM", "truecolor"),
            pair("LANG", "en_US.UTF-8"),
        ]
    );
    assert_eq!(lookup(&env, "TERM"), Some("xterm-256color".to_string()));
    assert_eq!(lookup(&env, "COLORTERM"), Some("truecolor".to_string()));
    assert_eq!(lookup(&env, "LANG"), Some("en_US.UTF-8".to_string()));
    assert_eq!(lookup(&env, "PATH"), Some("/usr/bin".to_string()));
    assert_eq!(lookup(&env, "HOME"), None);
}

#[test]
fn child_environment_of_an_empty_host_is_the_overrides() {
    let env = child_environment(&Vec::new());
    assert_eq!(env.len(), 3);
    assert_eq!(lookup(&env, "TERM"), Some("xterm-256color".to_string()));
}

#[test]
fn plan_resolves_everything() {
    let host = vec![pair("SHELL", "/bin/bash"), pair("PATH", "/bin")];
    let plan = SpawnPlan::new(None, None, 24, 80, &host, Some("/home/alice".into()));
    assert_eq!(plan.shell, "/bin/bash");
    assert_eq!(plan.args, vec!["-l".to_string()]);
    assert_eq!(plan.cwd, "/home/alice");
    assert_eq!(plan.size, PtySize { rows: 24, cols: 80, pixel_width: 0, pixel_height: 0 });
    assert_eq!(plan.env.len(), 5);
    assert_eq!(lookup(&plan.env, "PATH"), Some("/bin".to_string()));

    let plan = SpawnPlan::new(Some("sh".into()), Some("/srv".into()), 1, 2, &Vec::new(), None);
    assert_eq!(plan.shell, "sh");
    assert_eq!(plan.cwd, "/srv");
    assert_eq!(plan.size, PtySize::cells(1, 2));

    let plan = SpawnPlan::new(None, None, 0, 0, &Vec::new(), None);
    assert_eq!(plan.shell, "/bin/zsh");
    assert_eq!(plan.cwd, "/");
}

#[test]
fn size_in_cells_has_no_pixels() {
    assert_eq!(
        PtySize::cells(40, 120),
        PtySize { rows: 40, cols: 120, pixel_width: 0, pixel_height: 0 }
    );
}
