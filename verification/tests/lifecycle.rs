use glassmarlin::errors::LaunchError;
use glassmarlin::shell::{
    database_url, failure_script, workbench_script, Shell, ShellAction, ShellEvent,
};

#[test]
fn database_url_names_the_file_in_the_data_dir() {
    assert_eq!(
        database_url("/home/o'neil/gm"),
        "sqlite:////home/o'neil/gm/marlinspike.db"
    );
    assert_eq!(database_url("/d"), "sqlite:////d/marlinspike.db");
}

#[test]
fn workbench_script_points_at_the_port() {
    assert_eq!(workbench_script(8123), "window.location.replace('http://127.0.0.1:8123')");
}

#[test]
fn failure_script_escapes_the_message() {
    let s = failure_script("can't start\nport busy");
    let expected = format!(
        "document.body.innerHTML = '<pre style=\"padding:40px;color:#ef4444;font-family:monospace\">GlassMarlin failed to start:\\n\\n{}</pre>'",
        "can't start\nport busy".replace('\'', "&#39;").replace('\n', "\\n")
    );
    assert_eq!(s, expected);
    assert!(s.contains("can&#39;t start\\nport busy"));
}

#[test]
fn launch_error_messages() {
    assert_eq!(LaunchError::NoFreePort.message(), "no free port");
    assert_eq!(
        LaunchError::PythonNotFound { path: "/r/python/bin/python3".to_string() }.message(),
        "bundled python not found at /r/python/bin/python3"
    );
    assert_eq!(
        LaunchError::EmptyBundle { runtime_root: "/r".to_string() }.message(),
        "bundle is empty \u{2014} was the binary built without the `embed-bundle` feature? In dev mode, place an extracted bundle at /r manually."
    );
    for d in [
        std::time::Duration::from_secs(30),
        std::time::Duration::ZERO,
        std::time::Duration::from_millis(1500),
        std::time::Duration::new(2, 5),
        std::time::Duration::from_millis(250),
        std::time::Duration::from_micros(1050),
        std::time::Duration::from_micros(7),
        std::time::Duration::from_nanos(1500),
        std::time::Duration::from_nanos(999),
        std::time::Duration::new(u64::MAX, 999_999_999),
    ] {
        let e = LaunchError::NotHealthy {
            timeout_secs: d.as_secs(),
            timeout_nanos: d.subsec_nanos(),
            attempts: 117,
        };
        assert_eq!(
            e.message(),
            format!("marlinspike did not become healthy within {:?} (117 probes)", d)
        );
    }
}

#[test]
fn spawned_then_ready_then_close_stops_once() {
    let mut shell = Shell::new();
    assert!(matches!(shell.handle(ShellEvent::Spawned { port: 5001 }), ShellAction::Nothing));
    assert_eq!(shell.child, Some(5001));
    match shell.handle(ShellEvent::Ready { port: 5001 }) {
        ShellAction::Show { script } => {
            assert_eq!(script, "window.location.replace('http://127.0.0.1:5001')")
        }
        _ => panic!("expected the workbench to be shown"),
    }
    assert_eq!(shell.child, Some(5001));
    assert!(matches!(shell.handle(ShellEvent::CloseRequested), ShellAction::StopChild));
    assert!(matches!(shell.handle(ShellEvent::CloseRequested), ShellAction::Nothing));
    assert!(matches!(shell.handle(ShellEvent::Signalled), ShellAction::Exit));
}

#[test]
fn signal_during_readiness_wait_stops_the_child() {
    let mut shell = Shell::new();
    let _ = shell.handle(ShellEvent::Spawned { port: 7000 });
    assert!(matches!(shell.handle(ShellEvent::Signalled), ShellAction::StopChildAndExit));
    assert_eq!(shell.child, None);
}

#[test]
fn failed_readiness_wait_stops_the_child() {
    let mut shell = Shell::new();
    let _ = shell.handle(ShellEvent::Spawned { port: 7001 });
    match shell.handle(ShellEvent::BootFailed { message: "timeout".to_string() }) {
        ShellAction::ShowAndStopChild { script } => assert!(script.ends_with("timeout</pre>'")),
        _ => panic!("expected the child to be stopped"),
    }
    assert_eq!(shell.child, None);
}

#[test]
fn a_new_child_replaces_and_stops_the_old() {
    let mut shell = Shell::new();
    let _ = shell.handle(ShellEvent::Spawned { port: 1 });
    assert!(matches!(shell.handle(ShellEvent::Spawned { port: 2 }), ShellAction::StopChild));
    assert_eq!(shell.child, Some(2));
}

#[test]
fn signal_without_child_exits() {
    let mut shell = Shell::new();
    assert!(matches!(shell.handle(ShellEvent::Signalled), ShellAction::Exit));
}

#[test]
fn failed_boot_is_shown_and_holds_nothing() {
    let mut shell = Shell::new();
    match shell.handle(ShellEvent::BootFailed { message: "no free port".to_string() }) {
        ShellAction::Show { script } => assert!(script.ends_with("no free port</pre>'")),
        _ => panic!("expected the failure to be shown"),
    }
    assert_eq!(shell.child, None);
    assert!(matches!(shell.handle(ShellEvent::CloseRequested), ShellAction::Nothing));
}
