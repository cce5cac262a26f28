//! The desktop shell around the interpreter: the texts it shows in its
//! window, the database address it configures, the errors of a failed start,
//! and how it reacts to the events of its lifetime.

use vstd::prelude::*;
use vstd::string::*;

use crate::paths::database_file_of;
use crate::runtime::{local_url, local_url_of};
use crate::text::{lemma_replace_char_removes, push_replacing, replace_char};

verus! {

/// The database address for a data directory:
/// `sqlite:///<data_dir>/marlinspike.db`, naming the database file
/// `<data_dir>/marlinspike.db`.
pub open spec fn database_url_of(data_dir: Seq<char>) -> Seq<char> {
    "sqlite:///"@ + database_file_of(data_dir)
}

/// The application's database address inside `data_dir`.
pub fn database_url(data_dir: &str) -> (u: String)
    ensures
        u@ == database_url_of(data_dir@),
{
    let mut u = String::from_str("sqlite:///");
    u.append(data_dir);
    u.append("/marlinspike.db");
    assert(u@ =~= database_url_of(data_dir@));
    u
}

/// The script that turns the window to the workbench on `port`:
/// `window.location.replace('<url>')`.
pub open spec fn workbench_script_of(port: u16) -> Seq<char> {
    "window.location.replace('"@ + local_url_of(port) + "')"@
}

/// The database address is the data directory's text, unchanged, between
/// `sqlite:///` and `/marlinspike.db`: no character of the directory is
/// escaped, dropped or replaced.
pub proof fn lemma_database_url_keeps_the_directory(data_dir: Seq<char>)
    ensures
        database_url_of(data_dir) == "sqlite:///"@ + data_dir + "/marlinspike.db"@,
        database_url_of(data_dir).len() == data_dir.len() + 25,
        database_url_of(data_dir).subrange(10, 10 + data_dir.len() as int) == data_dir,
{
    reveal_strlit("sqlite:///");
    reveal_strlit("/marlinspike.db");
    assert(database_url_of(data_dir) =~= "sqlite:///"@ + data_dir + "/marlinspike.db"@);
    assert(database_url_of(data_dir).subrange(10, 10 + data_dir.len() as int) =~= data_dir);
}

/// The script that sends the window to the running workbench.
pub fn workbench_script(port: u16) -> (s: String)
    ensures
        s@ == workbench_script_of(port),
{
    let mut s = String::from_str("window.location.replace('");
    let url = local_url(port);
    s.append(url.as_str());
    s.append("')");
    s
}

/// An error message made safe for a single-quoted script string: each `'`
/// becomes `&#39;`, then each line feed becomes the two characters `\n`.
pub open spec fn escaped_message(message: Seq<char>) -> Seq<char> {
    replace_char(replace_char(message, '\'', "&#39;"@), '\n', "\\n"@)
}

/// The escaped message can neither end the script's single-quoted string
/// nor break its line: it holds no `'` and no line feed, whatever the
/// message.
pub proof fn lemma_escaped_message_is_inert(message: Seq<char>)
    ensures
        !escaped_message(message).contains('\''),
        !escaped_message(message).contains('\n'),
{
    let q = "&#39;"@;
    let nl = "\\n"@;
    reveal_strlit("&#39;");
    reveal_strlit("\\n");
    assert(!q.contains('\'')) by {
        if q.contains('\'') {
            let k = choose|k: int| 0 <= k < q.len() && q[k] == '\'';
            assert(k == 0 || k == 1 || k == 2 || k == 3 || k == 4);
        }
    }
    assert(!nl.contains('\n') && !nl.contains('\'')) by {
        if nl.contains('\n') {
            let k = choose|k: int| 0 <= k < nl.len() && nl[k] == '\n';
            assert(k == 0 || k == 1);
        }
        if nl.contains('\'') {
            let k = choose|k: int| 0 <= k < nl.len() && nl[k] == '\'';
            assert(k == 0 || k == 1);
        }
    }
    let first = replace_char(message, '\'', q);
    lemma_replace_char_removes(message, '\'', q, '\n');
    lemma_replace_char_removes(first, '\n', nl, '\'');
}

/// The text before the escaped message in the failure page.
pub open spec fn failure_prefix() -> Seq<char> {
    "document.body.innerHTML = '<pre style=\"padding:40px;color:#ef4444;font-family:monospace\">GlassMarlin failed to start:\\n\\n"@
}

/// The script that shows a failed start in the window: a preformatted block
/// with the escaped message.
pub open spec fn failure_script_of(message: Seq<char>) -> Seq<char> {
    failure_prefix() + escaped_message(message) + "</pre>'"@
}

/// The script that replaces the splash page with the reason the start failed.
pub fn failure_script(message: &str) -> (s: String)
    ensures
        s@ == failure_script_of(message@),
{
    let mut quoted = String::new();
    push_replacing(&mut quoted, message, '\'', "&#39;");
    let mut s = String::from_str(
        "document.body.innerHTML = '<pre style=\"padding:40px;color:#ef4444;font-family:monospace\">GlassMarlin failed to start:\\n\\n",
    );
    push_replacing(&mut s, quoted.as_str(), '\n', "\\n");
    s.append("</pre>'");
    s
}

/// What happens to the shell.
pub enum ShellEvent {
    /// The interpreter was started and answers on `port`; the shell now
    /// holds it.
    Spawned { port: u16 },
    /// The interpreter answered its readiness probe on `port`.
    Ready { port: u16 },
    /// Bringing the interpreter up failed with `message`.
    BootFailed { message: String },
    /// The user closed the window.
    CloseRequested,
    /// The process received a termination or interrupt signal.
    Signalled,
}

/// What the shell does in answer to an event.
pub enum ShellAction {
    /// Run `script` in the window.
    Show { script: String },
    /// Stop the held interpreter, and run `script` in the window.
    ShowAndStopChild { script: String },
    /// Stop the held interpreter.
    StopChild,
    /// Stop the held interpreter, then exit with status 0.
    StopChildAndExit,
    /// Exit with status 0.
    Exit,
    /// Nothing to do.
    Nothing,
}

/// The kinds of action, without their texts.
#[derive(Clone, Copy, Debug, PartialEq, Eq, Structural)]
pub enum ActionKind {
    Show,
    ShowAndStopChild,
    StopChild,
    StopChildAndExit,
    Exit,
    Nothing,
}

/// The kind of an action.
pub open spec fn kind_of(a: ShellAction) -> ActionKind {
    match a {
        ShellAction::Show { .. } => ActionKind::Show,
        ShellAction::ShowAndStopChild { .. } => ActionKind::ShowAndStopChild,
        ShellAction::StopChild => ActionKind::StopChild,
        ShellAction::StopChildAndExit => ActionKind::StopChildAndExit,
        ShellAction::Exit => ActionKind::Exit,
        ShellAction::Nothing => ActionKind::Nothing,
    }
}

/// True for the kinds of action that stop the held interpreter.
pub open spec fn stops_child(k: ActionKind) -> bool {
    k == ActionKind::ShowAndStopChild || k == ActionKind::StopChild || k
        == ActionKind::StopChildAndExit
}

/// The port of the interpreter the shell holds after `event`, given the one
/// it held before: a started interpreter is held from then on; a failed
/// start, closing the window or a signal hands the held one over to be
/// stopped, so none is left.
pub open spec fn next_child(child: Option<u16>, event: ShellEvent) -> Option<u16> {
    match event {
        ShellEvent::Spawned { port } => Some(port),
        ShellEvent::Ready { .. } => child,
        ShellEvent::BootFailed { .. } => None,
        ShellEvent::CloseRequested => None,
        ShellEvent::Signalled => None,
    }
}

/// The kind of action taken on `event` while holding `child`: a new
/// interpreter replaces (and stops) any held one; readiness is shown in the
/// window; a failed start is shown and stops the interpreter if one was
/// started; closing the window stops the held interpreter; a signal stops it
/// too and always ends the process.
pub open spec fn action_kind_of(child: Option<u16>, event: ShellEvent) -> ActionKind {
    match event {
        ShellEvent::Spawned { .. } => if child is Some {
            ActionKind::StopChild
        } else {
            ActionKind::Nothing
        },
        ShellEvent::Ready { .. } => ActionKind::Show,
        ShellEvent::BootFailed { .. } => if child is Some {
            ActionKind::ShowAndStopChild
        } else {
            ActionKind::Show
        },
        ShellEvent::CloseRequested => if child is Some {
            ActionKind::StopChild
        } else {
            ActionKind::Nothing
        },
        ShellEvent::Signalled => if child is Some {
            ActionKind::StopChildAndExit
        } else {
            ActionKind::Exit
        },
    }
}

/// The script shown for an event that shows one.
pub open spec fn shown_script_of(event: ShellEvent) -> Seq<char> {
    match event {
        ShellEvent::Ready { port } => workbench_script_of(port),
        ShellEvent::BootFailed { message } => failure_script_of(message@),
        _ => Seq::empty(),
    }
}

/// The shell's state: the port of the interpreter it holds, if any.
pub struct Shell {
    pub child: Option<u16>,
}

impl Shell {
    /// A shell that holds no interpreter yet.
    pub fn new() -> (s: Shell)
        ensures
            s.child is None,
    {
        Shell { child: None }
    }

    /// Reacts to `event`: updates what the shell holds and says what to do.
    pub fn handle(&mut self, event: ShellEvent) -> (a: ShellAction)
        ensures
            final(self).child == next_child(old(self).child, event),
            kind_of(a) == action_kind_of(old(self).child, event),
            a matches ShellAction::Show { script } ==> script@ == shown_script_of(event),
            a matches ShellAction::ShowAndStopChild { script } ==> script@ == shown_script_of(
                event,
            ),
    {
        let held = self.child.is_some();
        match event {
            ShellEvent::Spawned { port } => {
                self.child = Some(port);
                if held {
                    ShellAction::StopChild
                } else {
                    ShellAction::Nothing
                }
            },
            ShellEvent::Ready { port } => { ShellAction::Show { script: workbench_script(port) } },
            ShellEvent::BootFailed { message } => {
                self.child = None;
                let script = failure_script(message.as_str());
                if held {
                    ShellAction::ShowAndStopChild { script }
                } else {
                    ShellAction::Show { script }
                }
            },
            ShellEvent::CloseRequested => {
                self.child = None;
                if held {
                    ShellAction::StopChild
                } else {
                    ShellAction::Nothing
                }
            },
            ShellEvent::Signalled => {
                self.child = None;
                if held {
                    ShellAction::StopChildAndExit
                } else {
                    ShellAction::Exit
                }
            },
        }
    }
}

/// No orphaned interpreter: from the moment it is started, an interpreter is
/// held by the shell, and it leaves the shell only through an action that
/// stops it. In particular, while one is held (during the readiness wait as
/// well as after it), closing the window stops it, a signal stops it and
/// ends the process, and a failed start stops it.
pub proof fn lemma_no_orphaned_child(child: Option<u16>, port: u16, event: ShellEvent)
    ensures
        next_child(child, ShellEvent::Spawned { port }) == Some(port),
        child is Some && next_child(child, event) != child ==> stops_child(
            action_kind_of(child, event),
        ),
        child is Some && (event is CloseRequested || event is Signalled || event is BootFailed)
            ==> stops_child(action_kind_of(child, event)) && next_child(child, event) is None,
        action_kind_of(Some(port), ShellEvent::CloseRequested) == ActionKind::StopChild,
        action_kind_of(Some(port), ShellEvent::Signalled) == ActionKind::StopChildAndExit,
{
}

/// A signal always ends the process, stopping the held interpreter first
/// when there is one.
pub proof fn lemma_signal_ends_process(child: Option<u16>)
    ensures
        action_kind_of(child, ShellEvent::Signalled) == (if child is Some {
            ActionKind::StopChildAndExit
        } else {
            ActionKind::Exit
        }),
{
}

/// The shell's history in terms of interpreter identities: interpreters are
/// numbered in the order they are started; `held` is the number of the one
/// held, `started` how many have been started.
pub struct History {
    pub held: Option<nat>,
    pub started: nat,
}

/// One event on the history: the next history and the number of the
/// interpreter the event stops, if any. A start stops the one held before
/// (if any) and holds the new one; a failed start, closing the window or a
/// signal stop the held one and leave none.
pub open spec fn history_step(h: History, event: ShellEvent) -> (History, Option<nat>) {
    match event {
        ShellEvent::Spawned { .. } => (History { held: Some(h.started), started: h.started + 1 }, h.held),
        ShellEvent::Ready { .. } => (h, None),
        _ => (History { held: None, started: h.started }, h.held),
    }
}

/// The history after `events`, from a shell that has started nothing, and
/// the numbers of the interpreters stopped along the way, in order.
pub open spec fn history_run(events: Seq<ShellEvent>) -> (History, Seq<nat>)
    decreases events.len(),
{
    if events.len() == 0 {
        (History { held: None, started: 0 }, Seq::empty())
    } else {
        let (h, stopped) = history_run(events.drop_last());
        let (h2, s) = history_step(h, events.last());
        (h2, match s {
            Some(id) => stopped.push(id),
            None => stopped,
        })
    }
}

/// The shell's decisions follow the history: an action stops an
/// interpreter exactly when the history stops the held one, and the shell
/// holds one exactly when the history does.
pub proof fn lemma_shell_follows_history(child: Option<u16>, h: History, event: ShellEvent)
    requires
        (child is Some) == (h.held is Some),
    ensures
        stops_child(action_kind_of(child, event)) == (history_step(h, event).1 is Some),
        (next_child(child, event) is Some) == (history_step(h, event).0.held is Some),
{
}

/// Every interpreter is stopped at most once, over any sequence of events:
/// the numbers of the stopped interpreters are distinct and all belong to
/// started ones, and the one still held has not been stopped.
pub proof fn lemma_each_child_stopped_at_most_once(events: Seq<ShellEvent>)
    ensures
        history_run(events).1.no_duplicates(),
        forall|i: int|
            0 <= i < history_run(events).1.len() ==> #[trigger] history_run(events).1[i]
                < history_run(events).0.started,
        history_run(events).0.held matches Some(id) ==> id + 1 == history_run(events).0.started
            && !history_run(events).1.contains(id),
    decreases events.len(),
{
    if events.len() > 0 {
        let prev = events.drop_last();
        lemma_each_child_stopped_at_most_once(prev);
        let (h, stopped) = history_run(prev);
        let (h2, s) = history_step(h, events.last());
        match s {
            Some(id) => {
                assert(forall|i: int| 0 <= i < stopped.len() ==> stopped[i] < id);
                let next = stopped.push(id);
                assert forall|i: int, j: int|
                    0 <= i < next.len() && 0 <= j < next.len() && i != j implies next[i]
                    != next[j] by {
                    if i < stopped.len() && j < stopped.len() {
                    } else if i == stopped.len() {
                        assert(next[j] == stopped[j]);
                    } else {
                        assert(next[i] == stopped[i]);
                    }
                }
                if h2.held is Some {
                    assert forall|i: int| 0 <= i < next.len() implies next[i] != h2.held->0 by {
                        if i < stopped.len() {
                            assert(next[i] == stopped[i]);
                        }
                    }
                }
            },
            None => {},
        }
    }
}

/// An interpreter is stopped at most once: after any event whose action stops
/// it, the shell holds none, so no later event stops anything until a new
/// interpreter is started.
pub proof fn lemma_child_stopped_at_most_once(child: Option<u16>, first: ShellEvent, second: ShellEvent)
    requires
        stops_child(action_kind_of(child, first)),
        !(first is Spawned),
        !(second is Spawned),
    ensures
        next_child(child, first) is None,
        !stops_child(action_kind_of(next_child(child, first), second)),
{
}

} // verus!
