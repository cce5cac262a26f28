//! Launching and supervising the bundled interpreter: the command that starts
//! it, the health probe that waits for it, and the graceful stop that ends it.

use vstd::prelude::*;
use vstd::string::*;

use crate::paths::{
    join,
    TargetOs, dpi_binary, dpi_binary_of, marlinspike_root, marlinspike_root_of,
    python_executable, python_executable_of, site_packages_of, bundled_site_packages,
    user_data_dir, user_data_dir_of,
};
use crate::text::{decimal, push_decimal};

verus! {

/// What the interpreter is started with.
pub struct SpawnConfig {
    /// The extracted runtime directory.
    pub runtime_root: String,
    /// The per-user data directory.
    pub data_dir: String,
    /// The local port the web application listens on.
    pub port: u16,
    /// The session-signing secret.
    pub secret_key: String,
    /// Where the application's database lives.
    pub database_url: String,
}

/// One variable of the child's environment.
pub struct EnvVar {
    pub name: String,
    pub value: String,
}

/// Everything needed to start the interpreter: program, working directory,
/// arguments and the environment variables set on top of the inherited ones.
/// Its standard output and error go to the launcher's standard output, so
/// they reach the launcher's log.
pub struct LaunchPlan {
    pub program: String,
    pub working_dir: String,
    pub args: Vec<String>,
    pub env: Vec<EnvVar>,
}

/// The environment as name/value pairs.
pub open spec fn env_pairs(env: Seq<EnvVar>) -> Seq<(Seq<char>, Seq<char>)> {
    env.map_values(|e: EnvVar| (e.name@, e.value@))
}

/// The arguments as texts.
pub open spec fn arg_texts(args: Seq<String>) -> Seq<Seq<char>> {
    args.map_values(|a: String| a@)
}

/// The arguments that run the web application module.
pub open spec fn launch_args() -> Seq<Seq<char>> {
    seq!["-m"@, "marlinspike.app"@]
}

/// The environment the application is configured through: its port and
/// loopback host, database and secret, data and project directories, the DPI
/// engine, the single-user desktop settings (no password-reset delivery, no
/// live capture, cookies over plain local HTTP, in-memory run store), and the
/// bundled packages on the module path.
pub open spec fn launch_env(os: TargetOs, cfg: SpawnConfig) -> Seq<(Seq<char>, Seq<char>)> {
    seq![
        ("PORT"@, decimal(cfg.port as nat)),
        ("HOST"@, "127.0.0.1"@),
        ("DATABASE_URL"@, cfg.database_url@),
        ("SECRET_KEY"@, cfg.secret_key@),
        ("MARLINSPIKE_DATA_DIR"@, user_data_dir_of(os, cfg.data_dir@)),
        ("MARLINSPIKE_PROJECT_ROOT"@, marlinspike_root_of(os, cfg.runtime_root@)),
        ("MARLINSPIKE_DPI_BIN"@, dpi_binary_of(os, cfg.runtime_root@)),
        ("MARLINSPIKE_RESET_TOKEN_DELIVERY"@, "disabled"@),
        ("LIVE_CAPTURE_ENABLED"@, "false"@),
        ("MARLINSPIKE_DEV_INSECURE_COOKIES"@, "true"@),
        ("MARLINSPIKE_RUN_STORE"@, "memory"@),
        ("PYTHONPATH"@, site_packages_of(os, cfg.runtime_root@)),
    ]
}

fn env_var(name: &str, value: String) -> (e: EnvVar)
    ensures
        e.name@ == name@,
        e.value@ == value@,
{
    EnvVar { name: String::from_str(name), value }
}

/// Builds the command that starts the bundled interpreter on the web
/// application: the bundled `python` runs `-m marlinspike.app` from the
/// package's data side, with the environment of `launch_env`.
pub fn launch_plan(cfg: &SpawnConfig, os: TargetOs) -> (plan: LaunchPlan)
    ensures
        plan.program@ == python_executable_of(os, cfg.runtime_root@),
        plan.working_dir@ == marlinspike_root_of(os, cfg.runtime_root@),
        arg_texts(plan.args@) == launch_args(),
        env_pairs(plan.env@) == launch_env(os, *cfg),
{
    let root = cfg.runtime_root.as_str();
    let program = python_executable(root, os);
    let working_dir = marlinspike_root(os, root);
    let mut args: Vec<String> = Vec::new();
    args.push(String::from_str("-m"));
    args.push(String::from_str("marlinspike.app"));
    let mut port = String::new();
    push_decimal(&mut port, cfg.port as u64);
    assert(port@ =~= decimal(cfg.port as nat));
    let mut env: Vec<EnvVar> = Vec::new();
    env.push(env_var("PORT", port));
    env.push(env_var("HOST", String::from_str("127.0.0.1")));
    env.push(env_var("DATABASE_URL", cfg.database_url.clone()));
    env.push(env_var("SECRET_KEY", cfg.secret_key.clone()));
    env.push(env_var("MARLINSPIKE_DATA_DIR", user_data_dir(os, cfg.data_dir.as_str())));
    env.push(env_var("MARLINSPIKE_PROJECT_ROOT", marlinspike_root(os, root)));
    env.push(env_var("MARLINSPIKE_DPI_BIN", dpi_binary(os, root)));
    env.push(env_var("MARLINSPIKE_RESET_TOKEN_DELIVERY", String::from_str("disabled")));
    env.push(env_var("LIVE_CAPTURE_ENABLED", String::from_str("false")));
    env.push(env_var("MARLINSPIKE_DEV_INSECURE_COOKIES", String::from_str("true")));
    env.push(env_var("MARLINSPIKE_RUN_STORE", String::from_str("memory")));
    env.push(env_var("PYTHONPATH", bundled_site_packages(root, os)));
    assert(arg_texts(args@) =~= launch_args());
    assert(env_pairs(env@) =~= launch_env(os, *cfg));
    LaunchPlan { program, working_dir, args, env }
}

/// The address the web application answers on: `http://127.0.0.1:<port>`.
pub open spec fn local_url_of(port: u16) -> Seq<char> {
    "http://127.0.0.1:"@ + decimal(port as nat)
}

/// The loopback address of the web application on `port`.
pub fn local_url(port: u16) -> (u: String)
    ensures
        u@ == local_url_of(port),
{
    let mut u = String::from_str("http://127.0.0.1:");
    push_decimal(&mut u, port as u64);
    u
}

/// The page probed for readiness: `/login`, the cheapest request that runs
/// the application's whole start-up path.
pub open spec fn health_url_of(port: u16) -> Seq<char> {
    local_url_of(port) + "/login"@
}

/// The readiness probe's address for the application on `port`.
pub fn health_url(port: u16) -> (u: String)
    ensures
        u@ == health_url_of(port),
{
    let mut u = local_url(port);
    u.append("/login");
    u
}

/// How long the launcher waits, in seconds, for the application to answer.
pub const HEALTH_TIMEOUT_SECS: u64 = 30;

/// The timeout of one probe request, in seconds.
pub const PROBE_TIMEOUT_SECS: u64 = 2;

/// The pause between two probes, in milliseconds.
pub const PROBE_INTERVAL_MILLIS: u64 = 250;

/// What one readiness probe gave.
#[derive(Clone, Copy, Debug, PartialEq, Eq, Structural)]
pub enum ProbeOutcome {
    /// The application answered with this HTTP status (error statuses
    /// included).
    Status(u16),
    /// No answer came: no connection, or a timeout.
    Failed,
}

/// What the wait does after a probe.
#[derive(Clone, Copy, Debug, PartialEq, Eq, Structural)]
pub enum HealthVerdict {
    /// The application is up.
    Healthy,
    /// Pause for `PROBE_INTERVAL_MILLIS`, then probe again.
    Retry,
    /// The deadline has passed: the start-up failed.
    GiveUp,
}

/// The verdict for a probe: any answer below 500 means the application is up;
/// otherwise the wait ends once the deadline has passed, and goes on before.
pub open spec fn verdict_of(outcome: ProbeOutcome, deadline_passed: bool) -> HealthVerdict {
    match outcome {
        ProbeOutcome::Status(code) if code < 500 => HealthVerdict::Healthy,
        _ => if deadline_passed {
            HealthVerdict::GiveUp
        } else {
            HealthVerdict::Retry
        },
    }
}

/// The state of the readiness wait: how many probes have been made.
pub struct HealthWait {
    pub attempts: u32,
}

impl HealthWait {
    /// A wait that has made no probe yet.
    pub fn new() -> (w: HealthWait)
        ensures
            w.attempts == 0,
    {
        HealthWait { attempts: 0 }
    }

    /// Counts one probe and decides, from its outcome and whether the
    /// deadline has passed (read after the probe), how the wait goes on.
    pub fn record(&mut self, outcome: ProbeOutcome, deadline_passed: bool) -> (v: HealthVerdict)
        requires
            old(self).attempts < u32::MAX,
        ensures
            final(self).attempts == old(self).attempts + 1,
            v == verdict_of(outcome, deadline_passed),
    {
        self.attempts = self.attempts + 1;
        match outcome {
            ProbeOutcome::Status(code) => {
                if code < 500 {
                    return HealthVerdict::Healthy;
                }
            },
            ProbeOutcome::Failed => {},
        }
        if deadline_passed {
            HealthVerdict::GiveUp
        } else {
            HealthVerdict::Retry
        }
    }
}

/// How many times a stopping child is polled for its exit before it is
/// killed.
pub const STOP_POLLS: u32 = 20;

/// The pause after each poll that finds the child still running, in
/// milliseconds: the child gets `STOP_POLLS` times this to exit.
pub const STOP_POLL_MILLIS: u64 = 100;

/// What a graceful stop does after a poll.
#[derive(Clone, Copy, Debug, PartialEq, Eq, Structural)]
pub enum StopStep {
    /// The child has exited: the stop is over.
    Exited,
    /// Pause for `STOP_POLL_MILLIS`, then poll again.
    PollAgain,
    /// Pause for `STOP_POLL_MILLIS`, then kill the child and reap it.
    Kill,
}

/// The state of a graceful stop: the child was asked to terminate and has
/// been polled `polls` times without having exited.
pub struct GracefulStop {
    pub polls: u32,
}

/// The step after a poll that follows `polls` fruitless ones.
pub open spec fn stop_step_of(polls: u32, exited: bool) -> StopStep {
    if exited {
        StopStep::Exited
    } else if polls + 1 < STOP_POLLS {
        StopStep::PollAgain
    } else {
        StopStep::Kill
    }
}

impl GracefulStop {
    /// How the child is stopped on `os`: on Unix it is first sent a
    /// termination signal and given time to exit (`Some`); on Windows it is
    /// killed at once (`None`).
    pub fn begin(os: TargetOs) -> (s: Option<GracefulStop>)
        ensures
            (os == TargetOs::Unix) <==> s is Some,
            s matches Some(g) ==> g.polls == 0,
    {
        match os {
            TargetOs::Unix => Some(GracefulStop { polls: 0 }),
            TargetOs::Windows => None,
        }
    }

    /// Records a poll of the child and decides what follows.
    pub fn observe(&mut self, exited: bool) -> (step: StopStep)
        requires
            old(self).polls < STOP_POLLS,
        ensures
            step == stop_step_of(old(self).polls, exited),
            final(self).polls == (if exited {
                old(self).polls
            } else {
                (old(self).polls + 1) as u32
            }),
            step == StopStep::PollAgain ==> final(self).polls < STOP_POLLS,
    {
        if exited {
            return StopStep::Exited;
        }
        self.polls = self.polls + 1;
        if self.polls < STOP_POLLS {
            StopStep::PollAgain
        } else {
            StopStep::Kill
        }
    }
}

/// A child that never exits is polled exactly `STOP_POLLS` times: every poll
/// before the last says to poll again, and the last one says to kill it.
pub proof fn lemma_stubborn_child_is_killed(polls: u32)
    requires
        polls < STOP_POLLS,
    ensures
        polls + 1 < STOP_POLLS ==> stop_step_of(polls, false) == StopStep::PollAgain,
        polls + 1 == STOP_POLLS ==> stop_step_of(polls, false) == StopStep::Kill,
{
}

/// The value a variable takes in an environment list: that of its first
/// entry, as a later setting of the same name would not be reached.
pub open spec fn env_lookup(env: Seq<(Seq<char>, Seq<char>)>, name: Seq<char>) -> Option<Seq<char>>
    decreases env.len(),
{
    if env.len() == 0 {
        None
    } else if env[0].0 == name {
        Some(env[0].1)
    } else {
        env_lookup(env.drop_first(), name)
    }
}

/// What the interpreter is told, variable by variable, in terms of the
/// configuration alone: the port in decimal on the loopback host; the
/// database address and secret passed through unchanged; the user's data
/// directory `marlinspike-data` inside the data directory (whatever the
/// runtime directory); the project root and the DPI engine inside the
/// runtime directory; the four desktop settings; and the bundled packages
/// under the runtime's `python` directory. The working directory is the
/// project root.
pub proof fn lemma_launch_environment(os: TargetOs, cfg: SpawnConfig)
    ensures
        env_lookup(launch_env(os, cfg), "PORT"@) == Some(decimal(cfg.port as nat)),
        env_lookup(launch_env(os, cfg), "HOST"@) == Some("127.0.0.1"@),
        env_lookup(launch_env(os, cfg), "DATABASE_URL"@) == Some(cfg.database_url@),
        env_lookup(launch_env(os, cfg), "SECRET_KEY"@) == Some(cfg.secret_key@),
        env_lookup(launch_env(os, cfg), "MARLINSPIKE_DATA_DIR"@) == Some(
            join(os, cfg.data_dir@, "marlinspike-data"@),
        ),
        env_lookup(launch_env(os, cfg), "MARLINSPIKE_PROJECT_ROOT"@) == Some(
            join(os, cfg.runtime_root@, "marlinspike"@),
        ),
        env_lookup(launch_env(os, cfg), "MARLINSPIKE_DPI_BIN"@) == Some(
            join(os, join(os, join(os, cfg.runtime_root@, "marlinspike"@), "dpi"@), "marlinspike-dpi"@),
        ),
        env_lookup(launch_env(os, cfg), "MARLINSPIKE_RESET_TOKEN_DELIVERY"@) == Some("disabled"@),
        env_lookup(launch_env(os, cfg), "LIVE_CAPTURE_ENABLED"@) == Some("false"@),
        env_lookup(launch_env(os, cfg), "MARLINSPIKE_DEV_INSECURE_COOKIES"@) == Some("true"@),
        env_lookup(launch_env(os, cfg), "MARLINSPIKE_RUN_STORE"@) == Some("memory"@),
        env_lookup(launch_env(os, cfg), "PYTHONPATH"@) == Some(
            if os == TargetOs::Windows {
                join(os, join(os, join(os, cfg.runtime_root@, "python"@), "Lib"@), "site-packages"@)
            } else {
                join(
                    os,
                    join(os, join(os, join(os, cfg.runtime_root@, "python"@), "lib"@), "python3.12"@),
                    "site-packages"@,
                )
            },
        ),
        marlinspike_root_of(os, cfg.runtime_root@) == join(os, cfg.runtime_root@, "marlinspike"@),
{
    reveal_strlit("PORT");
    reveal_strlit("HOST");
    reveal_strlit("DATABASE_URL");
    reveal_strlit("SECRET_KEY");
    reveal_strlit("MARLINSPIKE_DATA_DIR");
    reveal_strlit("MARLINSPIKE_PROJECT_ROOT");
    reveal_strlit("MARLINSPIKE_DPI_BIN");
    reveal_strlit("MARLINSPIKE_RESET_TOKEN_DELIVERY");
    reveal_strlit("LIVE_CAPTURE_ENABLED");
    reveal_strlit("MARLINSPIKE_DEV_INSECURE_COOKIES");
    reveal_strlit("MARLINSPIKE_RUN_STORE");
    reveal_strlit("PYTHONPATH");
    assert("PORT"@.len() == 4);
    assert("HOST"@.len() == 4);
    assert("DATABASE_URL"@.len() == 12);
    assert("SECRET_KEY"@.len() == 10);
    assert("MARLINSPIKE_DATA_DIR"@.len() == 20);
    assert("MARLINSPIKE_PROJECT_ROOT"@.len() == 24);
    assert("MARLINSPIKE_DPI_BIN"@.len() == 19);
    assert("MARLINSPIKE_RESET_TOKEN_DELIVERY"@.len() == 32);
    assert("LIVE_CAPTURE_ENABLED"@.len() == 20);
    assert("MARLINSPIKE_DEV_INSECURE_COOKIES"@.len() == 32);
    assert("MARLINSPIKE_RUN_STORE"@.len() == 21);
    assert("PYTHONPATH"@.len() == 10);
    assert("PORT"@[0] != "HOST"@[0]);
    assert("MARLINSPIKE_DATA_DIR"@[0] != "LIVE_CAPTURE_ENABLED"@[0]);
    assert("MARLINSPIKE_RESET_TOKEN_DELIVERY"@[12] != "MARLINSPIKE_DEV_INSECURE_COOKIES"@[12]);
    assert("SECRET_KEY"@[0] != "PYTHONPATH"@[0]);
    reveal_with_fuel(env_lookup, 13);
}

/// A poll that finds the child exited always ends the stop, whatever the
/// number of polls before it, and a poll that finds it running never does:
/// the child is killed exactly when the `STOP_POLLS`-th poll still finds it
/// running.
pub proof fn lemma_exit_ends_the_stop(polls: u32)
    requires
        polls < STOP_POLLS,
    ensures
        stop_step_of(polls, true) == StopStep::Exited,
        stop_step_of(polls, false) != StopStep::Exited,
        (stop_step_of(polls, false) == StopStep::Kill) == (polls + 1 == STOP_POLLS),
{
}

/// The readiness wait never gives up before the deadline, whatever the
/// probe gave; an answer below 500 is always healthy, and anything else
/// (an error status or no answer) is healthy never: it is retried before
/// the deadline and given up after it.
pub proof fn lemma_health_verdicts(outcome: ProbeOutcome, deadline_passed: bool)
    ensures
        verdict_of(outcome, false) != HealthVerdict::GiveUp,
        verdict_of(outcome, deadline_passed) == HealthVerdict::GiveUp ==> deadline_passed,
        (verdict_of(outcome, deadline_passed) == HealthVerdict::Healthy) == (outcome matches ProbeOutcome::Status(code) && code < 500),
        !(outcome matches ProbeOutcome::Status(code) && code < 500) ==> verdict_of(outcome, deadline_passed) == (if deadline_passed {
            HealthVerdict::GiveUp
        } else {
            HealthVerdict::Retry
        }),
{
}

} // verus!
