//! The reasons bringing the bundled interpreter up can fail, and their
//! messages.

use vstd::prelude::*;
use vstd::string::*;

use crate::text::{decimal, duration_debug, push_decimal, push_duration_debug};

verus! {

/// Why the interpreter could not be brought up.
#[derive(Debug)]
pub enum LaunchError {
    /// No free local port could be found.
    NoFreePort,
    /// The bundled interpreter is not where it should be.
    PythonNotFound { path: String },
    /// The binary carries no bundle and no extracted runtime is present.
    EmptyBundle { runtime_root: String },
    /// The embedded bundle is not a valid compressed archive.
    CorruptBundle,
    /// The application did not answer within the timeout of `timeout_secs`
    /// seconds and `timeout_nanos` nanoseconds (below one second), after
    /// `attempts` probes.
    NotHealthy { timeout_secs: u64, timeout_nanos: u32, attempts: u32 },
}

/// The message for each launch error.
pub open spec fn launch_message_of(e: LaunchError) -> Seq<char> {
    match e {
        LaunchError::NoFreePort => "no free port"@,
        LaunchError::PythonNotFound { path } => "bundled python not found at "@ + path@,
        LaunchError::EmptyBundle { runtime_root } => "bundle is empty \u{2014} was the binary built without the `embed-bundle` feature? In dev mode, place an extracted bundle at "@
            + runtime_root@ + " manually."@,
        LaunchError::CorruptBundle => "embedded bundle is not a valid zstd stream"@,
        LaunchError::NotHealthy { timeout_secs, timeout_nanos, attempts } => "marlinspike did not become healthy within "@
            + duration_debug(timeout_secs, timeout_nanos) + " ("@ + decimal(attempts as nat)
            + " probes)"@,
    }
}

/// The messages that name a place end with it, or carry it unchanged: the
/// missing interpreter's path closes its message, and the runtime directory
/// stands right before " manually." in the empty-bundle message.
pub proof fn lemma_messages_name_the_place(path: String, runtime_root: String)
    ensures
        ({
            let m = launch_message_of(LaunchError::PythonNotFound { path });
            m.len() >= path@.len() && m.subrange(m.len() - path@.len(), m.len() as int) == path@
        }),
        ({
            let m = launch_message_of(LaunchError::EmptyBundle { runtime_root });
            let k = m.len() - 10 - runtime_root@.len();
            k >= 0 && m.subrange(k, k + runtime_root@.len()) == runtime_root@
        }),
{
    reveal_strlit(" manually.");
    let m = launch_message_of(LaunchError::PythonNotFound { path });
    assert(m.subrange(m.len() - path@.len(), m.len() as int) =~= path@);
    let e = launch_message_of(LaunchError::EmptyBundle { runtime_root });
    let k = e.len() - 10 - runtime_root@.len();
    assert(e.subrange(k, k + runtime_root@.len()) =~= runtime_root@);
}

impl LaunchError {
    /// The human-readable message of the error.
    pub fn message(&self) -> (m: String)
        requires
            self matches LaunchError::NotHealthy { timeout_nanos, .. } ==> timeout_nanos
                < 1_000_000_000,
        ensures
            m@ == launch_message_of(*self),
    {
        match self {
            LaunchError::NoFreePort => String::from_str("no free port"),
            LaunchError::PythonNotFound { path } => {
                let mut m = String::from_str("bundled python not found at ");
                m.append(path.as_str());
                m
            },
            LaunchError::EmptyBundle { runtime_root } => {
                let mut m = String::from_str(
                    "bundle is empty \u{2014} was the binary built without the `embed-bundle` feature? In dev mode, place an extracted bundle at ",
                );
                m.append(runtime_root.as_str());
                m.append(" manually.");
                m
            },
            LaunchError::CorruptBundle => String::from_str("embedded bundle is not a valid zstd stream"),
            LaunchError::NotHealthy { timeout_secs, timeout_nanos, attempts } => {
                let mut m = String::from_str("marlinspike did not become healthy within ");
                push_duration_debug(&mut m, *timeout_secs, *timeout_nanos);
                m.append(" (");
                push_decimal(&mut m, *attempts as u64);
                m.append(" probes)");
                m
            },
        }
    }
}

} // verus!
