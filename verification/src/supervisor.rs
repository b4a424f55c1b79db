//! Lifecycle of the launched backend process.
//!
//! The host shell delivers two triggers: a startup hook that spawns the
//! backend and stores the outcome, and a window-destroyed event that must
//! terminate the process. The event may be delivered more than once and from
//! a context concurrent with the rest of the application, so the host keeps
//! the [`Supervisor`] (together with the real process handle) behind a
//! mutual-exclusion lock; concurrent deliveries then serialise into
//! successive [`Supervisor::on_window_destroyed`] calls, and the contracts
//! here make the second and every later call a no-op.
//!
//! Launch failure follows the degrade-gracefully policy: the application
//! keeps running without a backend and the failure is only reported as a
//! diagnostic, never as a raw error in the interface.

use vstd::prelude::*;

verus! {

/// Lifecycle states of the backend process, per application run.
/// `StartFailed` and `Terminated` are terminal: no transition re-enters
/// `Starting`, so at most one process is ever launched.
#[derive(Clone, Copy, Debug, PartialEq, Eq, Structural)]
pub enum BackendState {
    /// The startup hook has not run.
    NotStarted,
    /// The spawn attempt is in flight.
    Starting,
    /// A live process handle is held.
    Running,
    /// The spawn failed; no handle is held.
    StartFailed,
    /// The handle slot was cleared by a window-destroyed event.
    Terminated,
}

/// What a window-destroyed delivery asks the host to do with the real
/// process handle.
#[derive(Clone, Copy, Debug, PartialEq, Eq, Structural)]
pub enum TerminateAction {
    /// A live handle was held: forcefully terminate the process, then drop
    /// the handle. Requested at most once per run.
    KillProcess,
    /// No live handle: nothing to do. Not an error.
    TerminationNoOp,
}

/// Startup has stored its outcome: a handle, or the fact that there is none.
/// The window cannot be destroyed before it was set up, so every
/// window-destroyed delivery finds the supervisor in one of these states.
pub open spec fn spec_startup_complete(s: BackendState) -> bool {
    s is Running || s is StartFailed || s is Terminated
}

/// A live process handle is held exactly in `Running`.
pub open spec fn spec_holds_live_handle(s: BackendState) -> bool {
    s is Running
}

/// Whether a window-destroyed delivery in state `s` kills the process.
pub open spec fn spec_destroy_kills(s: BackendState) -> bool {
    s is Running
}

/// State after a window-destroyed delivery. Once startup is complete the
/// state collapses to `Terminated` and stays there.
pub open spec fn spec_after_destroyed(s: BackendState) -> BackendState {
    match s {
        BackendState::NotStarted => BackendState::NotStarted,
        BackendState::Starting => BackendState::Starting,
        BackendState::Running => BackendState::Terminated,
        BackendState::StartFailed => BackendState::Terminated,
        BackendState::Terminated => BackendState::Terminated,
    }
}

/// Termination is idempotent: after one delivery no live handle remains, a
/// repeated delivery kills nothing and leaves the state unchanged, so two
/// deliveries in sequence are observably the same as one.
pub proof fn lemma_termination_idempotent(s: BackendState)
    ensures
        spec_after_destroyed(spec_after_destroyed(s)) == spec_after_destroyed(s),
        !spec_destroy_kills(spec_after_destroyed(s)),
        !spec_holds_live_handle(spec_after_destroyed(s)),
{
}

/// If no handle was ever created (the start failed), termination is a safe
/// no-op: nothing is killed, the state merely settles in `Terminated`.
pub proof fn lemma_termination_without_handle(s: BackendState)
    requires
        s is StartFailed,
    ensures
        !spec_destroy_kills(s),
        spec_after_destroyed(s) is Terminated,
{
}

/// Two terminations serialised by the lock never kill twice: whatever state
/// the first delivery found, the second finds no live handle, so at most one
/// underlying process is ever terminated and the handle is released at most
/// once.
pub proof fn lemma_at_most_one_kill(s: BackendState)
    ensures
        !(spec_destroy_kills(s) && spec_destroy_kills(spec_after_destroyed(s))),
{
}

/// The decision core of the supervisor: the one piece of state shared
/// between the startup hook and the window-destroyed callback. The host
/// holds it, next to the real process handle, behind a lock.
pub struct Supervisor {
    pub state: BackendState,
}

impl Supervisor {
    /// A fresh supervisor; the startup hook has not run yet.
    pub fn new() -> (s: Supervisor)
        ensures
            s.state is NotStarted,
    {
        Supervisor { state: BackendState::NotStarted }
    }

    /// The startup hook begins its single spawn attempt.
    pub fn begin_start(&mut self)
        requires
            old(self).state is NotStarted,
        ensures
            final(self).state is Starting,
    {
        self.state = BackendState::Starting;
    }

    /// Records the outcome of the spawn attempt: `started` says whether the
    /// host now holds a live handle.
    pub fn record_start_outcome(&mut self, started: bool)
        requires
            old(self).state is Starting,
        ensures
            final(self).state == (if started {
                BackendState::Running
            } else {
                BackendState::StartFailed
            }),
            spec_holds_live_handle(final(self).state) == started,
    {
        if started {
            self.state = BackendState::Running;
        } else {
            self.state = BackendState::StartFailed;
        }
    }

    /// Handles one window-destroyed delivery and tells the host what to do
    /// with the handle. Exactly the deliveries that find a live handle ask
    /// for a kill; every delivery leaves a state in which later deliveries
    /// are no-ops.
    pub fn on_window_destroyed(&mut self) -> (a: TerminateAction)
        requires
            spec_startup_complete(old(self).state),
        ensures
            final(self).state == spec_after_destroyed(old(self).state),
            a is KillProcess <==> spec_destroy_kills(old(self).state),
            !spec_holds_live_handle(final(self).state),
    {
        match self.state {
            BackendState::Running => {
                self.state = BackendState::Terminated;
                TerminateAction::KillProcess
            },
            _ => {
                self.state = BackendState::Terminated;
                TerminateAction::TerminationNoOp
            },
        }
    }

    /// Whether a live process handle is currently held.
    pub fn holds_live_handle(&self) -> (r: bool)
        ensures
            r == spec_holds_live_handle(self.state),
    {
        match self.state {
            BackendState::Running => true,
            _ => false,
        }
    }
}

/// The spawn failed: the operating system refused to create the child
/// process (missing interpreter, missing entry point, permission denied).
/// Carries the underlying system error rendered as text; it is shown as a
/// diagnostic only.
pub struct ProcessStartError {
    pub message: String,
}

impl ProcessStartError {
    pub fn new(message: String) -> (e: ProcessStartError)
        ensures
            e.message@ == message@,
    {
        ProcessStartError { message }
    }

    /// The diagnostic line the host writes when startup degrades to running
    /// without a backend.
    pub fn diagnostic(&self) -> (r: String)
        ensures
            r@ == "CRITICAL ERROR: Failed to start backend server: "@ + self.message@,
    {
        let mut s = String::from_str("CRITICAL ERROR: Failed to start backend server: ");
        s.append(self.message.as_str());
        s
    }
}

} // verus!
