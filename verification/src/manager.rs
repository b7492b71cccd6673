//! Starting and stopping sessions: at most one at a time.

use crate::cancel::CancellationToken;
use crate::cancel::Canceller;
use crate::event::WatchTarget;
use crate::session::Phase;
use crate::session::SessionView;
use crate::session::WatchSession;
use crate::tail::TailView;
use vstd::prelude::*;

verus! {

/// Names one session that a [`SessionManager`] started.
#[derive(Clone, Copy, Debug, PartialEq, Eq)]
pub struct SessionHandle {
    id: u64,
}

/// Why no session was started.
#[derive(Clone, Copy, Debug, PartialEq, Eq, Structural)]
pub enum ManagerError {
    /// A session of this manager has not ended yet.
    AlreadyRunning,
    /// This manager has started as many sessions as it can count.
    Exhausted,
}

/// What is left to do after a stop was asked for.
#[derive(Clone, Copy, Debug, PartialEq, Eq, Structural)]
pub enum StopAction {
    /// The session's cancellation flag has been set; put one
    /// `ShutdownRequested` event into its queue to wake it.
    Wake,
    /// There is nothing to stop.
    Nothing,
}

/// What a manager is doing, as its user sees it.
#[derive(Clone, Copy, Debug, PartialEq, Eq, Structural)]
pub enum RunState {
    /// No session is held.
    Idle,
    /// A session is held, and no stop was asked of it.
    Running,
    /// A session is held that was asked to stop and has not been reported as
    /// stopped.
    Stopping,
}

/// What a successful start hands out: the handle for the one who asked, and
/// the session with the reading half of its cancellation flag for the one who
/// runs it.
pub struct Launch {
    pub handle: SessionHandle,
    pub session: WatchSession,
    pub token: CancellationToken,
}

/// The session that a manager holds: its number, and whether a stop was
/// asked for.
pub struct ActiveView {
    pub id: nat,
    pub stop_requested: bool,
}

/// What a [`SessionManager`] stands for: how many sessions it has started, and
/// the one that has not ended yet, if there is one.
pub struct ManagerView {
    pub issued: nat,
    pub active: Option<ActiveView>,
}

struct ActiveSession {
    id: u64,
    canceller: Canceller,
}

/// Starts and stops sessions, one at a time.
pub struct SessionManager {
    issued: u64,
    active: Option<ActiveSession>,
}

/// A stop for the session `id` has something to do: that session is the one
/// held, and no stop was asked of it before.
pub open spec fn stop_takes_effect(manager: ManagerView, id: nat) -> bool {
    manager.active == Some(ActiveView { id, stop_requested: false })
}

/// The manager after a stop was asked of the session `id`.
pub open spec fn after_stop(manager: ManagerView, id: nat) -> ManagerView {
    if stop_takes_effect(manager, id) {
        ManagerView { active: Some(ActiveView { id, stop_requested: true }), ..manager }
    } else {
        manager
    }
}

/// The session `id` is the one that the manager holds.
pub open spec fn holds_session(manager: ManagerView, id: nat) -> bool {
    manager.active is Some && manager.active->0.id == id
}

/// The manager after the session `id` was reported as stopped.
pub open spec fn after_finished(manager: ManagerView, id: nat) -> ManagerView {
    if holds_session(manager, id) {
        ManagerView { active: None, ..manager }
    } else {
        manager
    }
}

/// What the manager is doing.
pub open spec fn run_state(manager: ManagerView) -> RunState {
    match manager.active {
        None => RunState::Idle,
        Some(held) => if held.stop_requested {
            RunState::Stopping
        } else {
            RunState::Running
        },
    }
}

/// Why a start is refused, if it is: an earlier session has not ended, or the
/// manager cannot count another one.
pub open spec fn start_refusal(manager: ManagerView) -> Option<ManagerError> {
    if manager.active is Some {
        Some(ManagerError::AlreadyRunning)
    } else if manager.issued >= u64::MAX {
        Some(ManagerError::Exhausted)
    } else {
        None
    }
}

/// The manager after a start was asked for: it holds a new session, numbered
/// by how many it had started before, unless the start is refused, which
/// leaves it as it was.
pub open spec fn after_start(manager: ManagerView) -> ManagerView {
    if start_refusal(manager) is None {
        ManagerView {
            issued: manager.issued + 1,
            active: Some(ActiveView { id: manager.issued, stop_requested: false }),
        }
    } else {
        manager
    }
}

impl View for SessionHandle {
    type V = nat;

    closed spec fn view(&self) -> nat {
        self.id as nat
    }
}

impl View for SessionManager {
    type V = ManagerView;

    closed spec fn view(&self) -> ManagerView {
        ManagerView {
            issued: self.issued as nat,
            active: match self.active {
                Some(held) => Some(
                    ActiveView { id: held.id as nat, stop_requested: held.canceller.requested() },
                ),
                None => None,
            },
        }
    }
}

impl SessionManager {
    /// The flag of the session that is held is the one that `token` reads.
    pub closed spec fn signals(&self, token: &CancellationToken) -> bool {
        self.active is Some && token.paired_with(&self.active->0.canceller)
    }
}

impl Default for SessionManager {
    /// A manager that has started nothing yet.
    fn default() -> (manager: SessionManager)
        ensures
            manager@ == (ManagerView { issued: 0, active: None }),
    {
        SessionManager::new()
    }
}

impl SessionManager {
    /// A manager that has started nothing yet.
    pub fn new() -> (manager: SessionManager)
        ensures
            manager@ == (ManagerView { issued: 0, active: None }),
    {
        SessionManager { issued: 0, active: None }
    }

    /// A manager that has started `issued` sessions before and holds none of
    /// them: it goes on counting from there.
    pub fn with_issued(issued: u64) -> (manager: SessionManager)
        ensures
            manager@ == (ManagerView { issued: issued as nat, active: None }),
    {
        SessionManager { issued, active: None }
    }

    /// Starts a session for `target` that fires on lines holding `trigger`.
    ///
    /// This fails with `AlreadyRunning` as long as an earlier session has not
    /// been reported as stopped, whether or not a stop was asked of it; the
    /// manager then stays as it was, and the earlier session is untouched.
    pub fn start(&mut self, target: WatchTarget, trigger: Vec<u8>) -> (started: Result<
        Launch,
        ManagerError,
    >)
        ensures
            final(self)@ == after_start(old(self)@),
            match started {
                Ok(launch) => {
                    &&& start_refusal(old(self)@) is None
                    &&& launch.handle@ == old(self)@.issued
                    &&& final(self).signals(&launch.token)
                    &&& launch.session@ == (SessionView {
                        phase: Phase::Starting,
                        file_path: target.file_path@,
                        directory_path: target.directory_path@,
                        trigger: trigger@,
                        tail: TailView { offset: 0, observed: 0 },
                    })
                },
                Err(error) => start_refusal(old(self)@) == Some(error),
            },
    {
        if self.active.is_some() {
            return Err(ManagerError::AlreadyRunning);
        }
        if self.issued == u64::MAX {
            return Err(ManagerError::Exhausted);
        }
        let id: u64 = self.issued;
        let (canceller, token) = CancellationToken::new();
        let session = WatchSession::new(target, trigger);
        self.issued = id + 1;
        self.active = Some(ActiveSession { id, canceller });
        Ok(Launch { handle: SessionHandle { id }, session, token })
    }

    /// Asks the session of `handle` to stop, and returns at once.
    ///
    /// Where that session is the one held and no stop was asked of it before,
    /// its cancellation flag is set and the caller is told to wake it. In any
    /// other case, a session that has stopped among them, nothing happens.
    pub fn stop(&mut self, handle: &SessionHandle) -> (action: StopAction)
        ensures
            final(self)@ == after_stop(old(self)@, handle@),
            action == if stop_takes_effect(old(self)@, handle@) {
                StopAction::Wake
            } else {
                StopAction::Nothing
            },
            forall|token: CancellationToken|
                old(self).signals(&token) ==> #[trigger] final(self).signals(&token),
    {
        match self.active.take() {
            Some(held) => {
                let mut held = held;
                let action = if held.id == handle.id && !held.canceller.is_requested() {
                    held.canceller.cancel();
                    StopAction::Wake
                } else {
                    StopAction::Nothing
                };
                self.active = Some(held);
                action
            },
            None => StopAction::Nothing,
        }
    }

    /// The session of `handle` has reached `Stopped`: the manager lets go of
    /// it and can start the next one.
    pub fn finished(&mut self, handle: &SessionHandle)
        ensures
            final(self)@ == after_finished(old(self)@, handle@),
    {
        match self.active.take() {
            Some(held) => {
                if held.id != handle.id {
                    self.active = Some(held);
                }
            },
            None => {},
        }
    }

    /// Is there a session that has not been reported as stopped?
    pub fn is_running(&self) -> (running: bool)
        ensures
            running == (self@.active is Some),
    {
        self.active.is_some()
    }

    /// Has the session of `handle` been reported as stopped?
    pub fn is_finished(&self, handle: &SessionHandle) -> (done: bool)
        ensures
            done == !holds_session(self@, handle@),
    {
        match &self.active {
            Some(held) => held.id != handle.id,
            None => true,
        }
    }

    /// What the manager is doing: nothing, running a session, or waiting for
    /// a session to stop.
    pub fn state(&self) -> (state: RunState)
        ensures
            state == run_state(self@),
    {
        match &self.active {
            None => RunState::Idle,
            Some(held) => if held.canceller.is_requested() {
                RunState::Stopping
            } else {
                RunState::Running
            },
        }
    }
}

} // verus!
