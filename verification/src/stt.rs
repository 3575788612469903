use vstd::prelude::*;
use crate::text::{concat, decimal, push_decimal};

verus! {

/// The engine family of a local speech-to-text model.
#[derive(Clone, Copy, Debug, PartialEq, Eq, Structural)]
pub enum SttModelType {
    Cactus,
    Whispercpp,
    Argmax,
}

/// What the local server reports of its life.
#[derive(Clone, Debug)]
pub enum LocalServerEvent {
    Starting,
    Ready { base_url: String },
    Stopping,
    Stopped,
    Error { error: String },
}

/// Receives the events of a local server.
pub trait LocalServerRuntime {
    fn emit(&self, event: LocalServerEvent);
}

/// A runtime that ignores every event.
#[derive(Debug, Default)]
pub struct NoopRuntime;

impl LocalServerRuntime for NoopRuntime {
    fn emit(&self, _event: LocalServerEvent) {
    }
}

/// The URL of a server listening on the loopback address at `port`, under `base_path`.
pub open spec fn spec_local_base_url(port: u16, base_path: Seq<char>) -> Seq<char> {
    "http://127.0.0.1:"@ + decimal(port as nat) + base_path
}

pub fn local_base_url(port: u16, base_path: &str) -> (r: String)
    ensures
        r@ == spec_local_base_url(port, base_path@),
{
    let mut r = String::from_str("http://127.0.0.1:");
    push_decimal(&mut r, port as u64);
    r.append(base_path);
    r
}

/// What stopping a server takes: whether to report it (`Stopping` before, `Stopped`
/// after), to signal the graceful shutdown, and to abort the serving task.
#[derive(Clone, Copy, Debug)]
pub struct StopPlan {
    pub notify: bool,
    pub signal_shutdown: bool,
    pub abort_task: bool,
}

/// Where a running local server stands: its URL, and whether its shutdown signal and its
/// serving task are still held.
pub struct ServerLifecycle {
    base_url: String,
    shutdown_held: bool,
    task_held: bool,
}

impl ServerLifecycle {
    pub closed spec fn spec_base_url(&self) -> Seq<char> {
        self.base_url@
    }

    /// Whether the graceful-shutdown signal is still held.
    pub closed spec fn holds_shutdown(&self) -> bool {
        self.shutdown_held
    }

    /// Whether the serving task is still held.
    pub closed spec fn holds_task(&self) -> bool {
        self.task_held
    }

    /// Whether something is left to stop.
    pub closed spec fn running(&self) -> bool {
        self.shutdown_held || self.task_held
    }

    /// A server that was just started at `base_url`, and the event that reports it ready.
    pub fn started(base_url: String) -> (r: (ServerLifecycle, LocalServerEvent))
        ensures
            r.0.running(),
            r.0.holds_shutdown(),
            r.0.holds_task(),
            r.0.spec_base_url() == base_url@,
            r.1 matches LocalServerEvent::Ready { base_url: u } && u@ == base_url@,
    {
        let event = LocalServerEvent::Ready { base_url: base_url.clone() };
        (ServerLifecycle { base_url, shutdown_held: true, task_held: true }, event)
    }

    pub fn base_url(&self) -> (r: &str)
        ensures
            r@ == self.spec_base_url(),
    {
        self.base_url.as_str()
    }

    /// Stops the server: the first stop reports, signals and aborts; a later one does
    /// nothing.
    pub fn stop(&mut self) -> (plan: StopPlan)
        ensures
            *final(self) == old(self).stopped(),
            plan == old(self).stop_plan(),
            !final(self).running(),
            !final(self).holds_shutdown(),
            !final(self).holds_task(),
            final(self).spec_base_url() == old(self).spec_base_url(),
    {
        if !self.shutdown_held && !self.task_held {
            return StopPlan { notify: false, signal_shutdown: false, abort_task: false };
        }
        let plan = StopPlan {
            notify: true,
            signal_shutdown: self.shutdown_held,
            abort_task: self.task_held,
        };
        self.shutdown_held = false;
        self.task_held = false;
        plan
    }

    /// The server once stopped: same URL, nothing held.
    pub closed spec fn stopped(self) -> ServerLifecycle {
        ServerLifecycle { base_url: self.base_url, shutdown_held: false, task_held: false }
    }

    /// What stopping takes: report only when something is held, signal and abort what is.
    pub open spec fn stop_plan(self) -> StopPlan {
        StopPlan {
            notify: self.running(),
            signal_shutdown: self.holds_shutdown(),
            abort_task: self.holds_task(),
        }
    }

    /// Stopping keeps the URL and leaves nothing to stop.
    pub proof fn lemma_stopped(self)
        ensures
            !self.stopped().running(),
            !self.stopped().holds_shutdown(),
            !self.stopped().holds_task(),
            self.stopped().spec_base_url() == self.spec_base_url(),
    {
    }
}

/// A server is reported stopping and stopped once: after a stop, stopping again reports,
/// signals and aborts nothing, and changes nothing.
pub proof fn law_stop_is_idempotent(s: ServerLifecycle)
    ensures
        s.stopped().stop_plan() == (StopPlan { notify: false, signal_shutdown: false, abort_task: false }),
        s.stopped().stopped() == s.stopped(),
{
    s.lemma_stopped();
    s.stopped().lemma_stopped();
}

/// Stopping a server that was just started reports it, signals its shutdown and aborts its
/// task.
pub proof fn law_stop_after_start(s: ServerLifecycle)
    requires
        s.holds_shutdown(),
        s.holds_task(),
    ensures
        s.stop_plan() == (StopPlan { notify: true, signal_shutdown: true, abort_task: true }),
{
}

/// The path under which the local speech-to-text server serves.
pub const STT_BASE_PATH: &'static str = "/v1";

/// The route of the streaming transcription endpoint.
pub const STT_LISTEN_ROUTE: &'static str = "/v1/listen";

}
