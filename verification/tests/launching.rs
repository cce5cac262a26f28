use glassmarlin::runtime::{
    health_url, launch_plan, local_url, GracefulStop, HealthVerdict, HealthWait, ProbeOutcome,
    SpawnConfig, StopStep, HEALTH_TIMEOUT_SECS, PROBE_INTERVAL_MILLIS, PROBE_TIMEOUT_SECS,
    STOP_POLLS, STOP_POLL_MILLIS,
};
use glassmarlin::paths::TargetOs;

fn config() -> SpawnConfig {
    SpawnConfig {
        runtime_root: "/d/runtime".to_string(),
        data_dir: "/d".to_string(),
        port: 41234,
        secret_key: "s3cr3t".to_string(),
        database_url: "sqlite:////d/marlinspike.db".to_string(),
    }
}

#[test]
fn launch_command_on_unix() {
    let plan = launch_plan(&config(), TargetOs::Unix);
    assert_eq!(plan.program, "/d/runtime/python/bin/python3");
    assert_eq!(plan.working_dir, "/d/runtime/marlinspike");
    assert_eq!(plan.args, vec!["-m".to_string(), "marlinspike.app".to_string()]);
    let env: Vec<(String, String)> =
        plan.env.into_iter().map(|e| (e.name, e.value)).collect();
    let expected: Vec<(&str, &str)> = vec![
        ("PORT", "41234"),
        ("HOST", "127.0.0.1"),
        ("DATABASE_URL", "sqlite:////d/marlinspike.db"),
        ("SECRET_KEY", "s3cr3t"),
        ("MARLINSPIKE_DATA_DIR", "/d/marlinspike-data"),
        ("MARLINSPIKE_PROJECT_ROOT", "/d/runtime/marlinspike"),
        ("MARLINSPIKE_DPI_BIN", "/d/runtime/marlinspike/dpi/marlinspike-dpi"),
        ("MARLINSPIKE_RESET_TOKEN_DELIVERY", "disabled"),
        ("LIVE_CAPTURE_ENABLED", "false"),
        ("MARLINSPIKE_DEV_INSECURE_COOKIES", "true"),
        ("MARLINSPIKE_RUN_STORE", "memory"),
        ("PYTHONPATH", "/d/runtime/python/lib/python3.12/site-packages"),
    ];
    let expected: Vec<(String, String)> =
        expected.into_iter().map(|(a, b)| (a.to_string(), b.to_string())).collect();
    assert_eq!(env, expected);
}

#[test]
fn launch_command_on_windows() {
    let mut cfg = config();
    cfg.runtime_root = "C:\\gm\\runtime".to_string();
    cfg.data_dir = "C:\\gm".to_string();
    let plan = launch_plan(&cfg, TargetOs::Windows);
    assert_eq!(plan.program, "C:\\gm\\runtime\\python\\python.exe");
    assert_eq!(plan.working_dir, "C:\\gm\\runtime\\marlinspike");
    let pythonpath = plan.env.iter().find(|e| e.name == "PYTHONPATH").unwrap();
    assert_eq!(pythonpath.value, "C:\\gm\\runtime\\python\\Lib\\site-packages");
}

#[test]
fn urls_of_the_application() {
    assert_eq!(local_url(5000), "http://127.0.0.1:5000");
    assert_eq!(health_url(65535), "http://127.0.0.1:65535/login");
    assert_eq!(health_url(0), "http://127.0.0.1:0/login");
}

#[test]
fn health_wait_timings() {
    assert_eq!(HEALTH_TIMEOUT_SECS, 30);
    assert_eq!(PROBE_TIMEOUT_SECS, 2);
    assert_eq!(PROBE_INTERVAL_MILLIS, 250);
}

#[test]
fn answer_below_500_is_healthy() {
    let mut w = HealthWait::new();
    assert_eq!(w.record(ProbeOutcome::Failed, false), HealthVerdict::Retry);
    assert_eq!(w.record(ProbeOutcome::Status(503), false), HealthVerdict::Retry);
    assert_eq!(w.record(ProbeOutcome::Status(200), false), HealthVerdict::Healthy);
    assert_eq!(w.attempts, 3);
    assert_eq!(w.record(ProbeOutcome::Status(499), true), HealthVerdict::Healthy);
}

#[test]
fn deadline_ends_the_wait() {
    let mut w = HealthWait::new();
    assert_eq!(w.record(ProbeOutcome::Status(500), true), HealthVerdict::GiveUp);
    assert_eq!(w.record(ProbeOutcome::Failed, true), HealthVerdict::GiveUp);
    assert_eq!(w.attempts, 2);
}

#[test]
fn graceful_stop_on_unix_kills_after_twenty_polls() {
    assert_eq!(STOP_POLLS, 20);
    assert_eq!(STOP_POLL_MILLIS, 100);
    let mut stop = GracefulStop::begin(TargetOs::Unix).unwrap();
    for _ in 0..19 {
        assert_eq!(stop.observe(false), StopStep::PollAgain);
    }
    assert_eq!(stop.observe(false), StopStep::Kill);
    assert_eq!(stop.polls, 20);
}

#[test]
fn graceful_stop_ends_when_the_child_exits() {
    let mut stop = GracefulStop::begin(TargetOs::Unix).unwrap();
    assert_eq!(stop.observe(false), StopStep::PollAgain);
    assert_eq!(stop.observe(true), StopStep::Exited);
    assert_eq!(stop.polls, 1);
}

#[test]
fn windows_kills_at_once() {
    assert!(GracefulStop::begin(TargetOs::Windows).is_none());
}
