//! The watching session: a state machine that is told what happened and
//! answers with what to do next.
//!
//! The session never waits, reads or captures by itself. Whoever runs it
//! opens the file and the watch, takes events from the queue, reads the spans
//! that the session asks for, and fires the side effect once for every line
//! that the session hands back.

use crate::cancel::CancellationToken;
use crate::event::ChangeEvent;
use crate::event::EventView;
use crate::event::WatchTarget;
use crate::lines::lines_of;
use crate::tail::after_poll;
use crate::tail::after_read;
use crate::tail::fills_span;
use crate::tail::plan_for;
use crate::tail::ReadPlan;
use crate::tail::TailReader;
use crate::tail::TailView;
use crate::trigger::matching_lines;
use crate::trigger::select_matching;
use vstd::prelude::*;

verus! {

/// Where a session stands in its life. `Stopped` is final.
#[derive(Clone, Copy, Debug, PartialEq, Eq, Structural)]
pub enum Phase {
    Starting,
    Running,
    Stopping,
    Stopped,
}

/// What the one who runs the session has to do next.
#[derive(Clone, Copy, Debug, PartialEq, Eq, Structural)]
pub enum Action {
    /// Open the file and the watch, then report with [`WatchSession::begin`],
    /// or with [`WatchSession::on_failure`] where that failed.
    Open,
    /// Take the next event from the queue and hand it to the session.
    Wait,
    /// Find the file's present length and hand it to
    /// [`WatchSession::poll_new_lines`].
    Poll,
    /// Release the file and the watch, then report with
    /// [`WatchSession::finish`]. No further event is taken.
    Release,
    /// The session is over.
    Halt,
}

/// What went wrong outside the session.
#[derive(Clone, Copy, Debug, PartialEq, Eq, Structural)]
pub enum Failure {
    /// The file or the watch could not be opened.
    Startup,
    /// The file's length or its new bytes could not be read.
    Io,
    /// The side effect of a trigger line failed.
    Capture,
    /// The queue of events is gone.
    WatchSource,
}

/// Why a span of bytes was not scanned.
#[derive(Clone, Copy, Debug, PartialEq, Eq, Structural)]
pub enum SessionError {
    /// The session is not in the phase `Running`.
    NotRunning,
    /// The bytes do not fill the span that the session asked for.
    SpanMismatch,
}

/// What a [`WatchSession`] stands for.
pub struct SessionView {
    pub phase: Phase,
    pub file_path: Seq<char>,
    pub directory_path: Seq<char>,
    pub trigger: Seq<u8>,
    pub tail: TailView,
}

/// A watching session for one target and one trigger text.
pub struct WatchSession {
    phase: Phase,
    target: WatchTarget,
    trigger: Vec<u8>,
    reader: TailReader,
}

/// What is to be done in a phase when nothing else was asked for.
pub open spec fn standing_action(phase: Phase) -> Action {
    match phase {
        Phase::Starting => Action::Open,
        Phase::Running => Action::Wait,
        Phase::Stopping => Action::Release,
        Phase::Stopped => Action::Halt,
    }
}

/// `session` in another phase.
pub open spec fn in_phase(session: SessionView, phase: Phase) -> SessionView {
    SessionView { phase, ..session }
}

/// `session` with another reading position.
pub open spec fn with_tail(session: SessionView, tail: TailView) -> SessionView {
    SessionView { tail, ..session }
}

/// The event, or the flag read with it, asks the session to end.
pub open spec fn asks_to_stop(event: EventView, cancel_requested: bool) -> bool {
    event is ShutdownRequested || cancel_requested
}

/// The session after the file and the watch were opened, the file being
/// `file_len` bytes long.
pub open spec fn after_begin(session: SessionView, file_len: nat, cancel_requested: bool)
    -> SessionView {
    if session.phase == Phase::Starting {
        SessionView {
            phase: if cancel_requested {
                Phase::Stopping
            } else {
                Phase::Running
            },
            tail: TailView { offset: file_len, observed: file_len },
            ..session
        }
    } else {
        session
    }
}

/// The session after an event: a running session that is asked to stop goes
/// to `Stopping`; nothing else changes.
pub open spec fn after_event(session: SessionView, event: EventView, cancel_requested: bool)
    -> SessionView {
    if session.phase == Phase::Running && asks_to_stop(event, cancel_requested) {
        in_phase(session, Phase::Stopping)
    } else {
        session
    }
}

/// What to do on an event. A running session ends where it is asked to,
/// looks at the file where the event names the watched file, and waits for
/// the next event otherwise.
pub open spec fn action_on_event(session: SessionView, event: EventView, cancel_requested: bool)
    -> Action {
    if session.phase == Phase::Running {
        if asks_to_stop(event, cancel_requested) {
            Action::Release
        } else if event == EventView::PathChanged(session.file_path) {
            Action::Poll
        } else {
            Action::Wait
        }
    } else {
        standing_action(session.phase)
    }
}

/// A failure that ends the session in the given phase: any failure while it
/// starts, the loss of the event queue while it runs.
pub open spec fn is_fatal(phase: Phase, failure: Failure) -> bool {
    match phase {
        Phase::Starting => true,
        Phase::Running => failure == Failure::WatchSource,
        _ => false,
    }
}

/// The session after a failure was reported.
pub open spec fn after_failure(session: SessionView, failure: Failure) -> SessionView {
    if !is_fatal(session.phase, failure) {
        session
    } else if session.phase == Phase::Starting {
        in_phase(session, Phase::Stopped)
    } else {
        in_phase(session, Phase::Stopping)
    }
}

/// The session after its file and watch were released.
pub open spec fn after_finish(session: SessionView) -> SessionView {
    if session.phase == Phase::Stopping {
        in_phase(session, Phase::Stopped)
    } else {
        session
    }
}

impl View for WatchSession {
    type V = SessionView;

    closed spec fn view(&self) -> SessionView {
        SessionView {
            phase: self.phase,
            file_path: self.target.file_path@,
            directory_path: self.target.directory_path@,
            trigger: self.trigger@,
            tail: self.reader@,
        }
    }
}

impl WatchSession {
    /// A session for `target` that fires on lines holding `trigger`. It is in
    /// the phase `Starting`.
    pub fn new(target: WatchTarget, trigger: Vec<u8>) -> (session: WatchSession)
        ensures
            session@ == (SessionView {
                phase: Phase::Starting,
                file_path: target.file_path@,
                directory_path: target.directory_path@,
                trigger: trigger@,
                tail: TailView { offset: 0, observed: 0 },
            }),
    {
        WatchSession { phase: Phase::Starting, target, trigger, reader: TailReader::open(0) }
    }

    /// The phase the session is in.
    pub fn phase(&self) -> (phase: Phase)
        ensures
            phase == self@.phase,
    {
        self.phase
    }

    /// The target the session was made for.
    pub fn target(&self) -> (target: &WatchTarget)
        ensures
            target.file_path@ == self@.file_path,
            target.directory_path@ == self@.directory_path,
    {
        &self.target
    }

    /// The number of bytes of the file that have been handed out.
    pub fn offset(&self) -> (offset: u64)
        ensures
            offset == self@.tail.offset,
            self@.tail.offset <= self@.tail.observed,
    {
        self.reader.offset()
    }

    /// What is to be done now, if nothing else was asked for.
    pub fn standing(&self) -> (action: Action)
        ensures
            action == standing_action(self@.phase),
    {
        match self.phase {
            Phase::Starting => Action::Open,
            Phase::Running => Action::Wait,
            Phase::Stopping => Action::Release,
            Phase::Stopped => Action::Halt,
        }
    }

    /// The file and the watch are open, and the file is `file_len` bytes long.
    ///
    /// A starting session begins to run, at the file's end. If a stop was
    /// asked for in the meantime it goes straight to `Stopping`, so that what
    /// was opened is released. In any other phase nothing changes.
    pub fn begin(&mut self, file_len: u64, cancel_requested: bool) -> (action: Action)
        ensures
            final(self)@ == after_begin(old(self)@, file_len as nat, cancel_requested),
            action == standing_action(final(self)@.phase),
    {
        if self.phase == Phase::Starting {
            self.reader = TailReader::open(file_len);
            if cancel_requested {
                self.phase = Phase::Stopping;
            } else {
                self.phase = Phase::Running;
            }
        }
        self.standing()
    }

    /// Takes one event from the queue, together with the cancellation flag as
    /// it was read after the event arrived.
    ///
    /// The reading position is never touched here, and an event that names
    /// another path than the watched file leaves the whole session as it was.
    pub fn on_event(&mut self, event: &ChangeEvent, cancel_requested: bool) -> (action: Action)
        ensures
            final(self)@ == after_event(old(self)@, event@, cancel_requested),
            action == action_on_event(old(self)@, event@, cancel_requested),
    {
        if self.phase != Phase::Running {
            return self.standing();
        }
        let shutdown: bool = match event {
            ChangeEvent::ShutdownRequested => true,
            ChangeEvent::PathChanged(_) => false,
        };
        if shutdown || cancel_requested {
            self.phase = Phase::Stopping;
            Action::Release
        } else if event.touches(&self.target.file_path) {
            Action::Poll
        } else {
            Action::Wait
        }
    }

    /// Takes one event from the queue and reads the cancellation flag for it.
    ///
    /// What the flag holds is decided elsewhere, so the outcome is that of
    /// [`WatchSession::on_event`] for one of its two values. A shutdown event
    /// ends a running session whatever the flag holds.
    pub fn on_event_with_token(&mut self, event: &ChangeEvent, token: &CancellationToken) -> (action:
        Action)
        ensures
            exists|cancel_requested: bool|
                {
                    &&& final(self)@ == #[trigger] after_event(
                        old(self)@,
                        event@,
                        cancel_requested,
                    )
                    &&& action == action_on_event(old(self)@, event@, cancel_requested)
                },
            event@ is ShutdownRequested ==> final(self)@ == after_event(old(self)@, event@, true),
    {
        let cancel_requested: bool = token.should_cancel();
        self.on_event(event, cancel_requested)
    }

    /// Takes note of the file's present length and says what to read. A
    /// session that is not running reads nothing and keeps its position.
    pub fn poll_new_lines(&mut self, current_len: u64) -> (plan: ReadPlan)
        ensures
            old(self)@.phase == Phase::Running ==> {
                &&& final(self)@ == with_tail(
                    old(self)@,
                    after_poll(old(self)@.tail, current_len as nat),
                )
                &&& plan == plan_for(old(self)@.tail, current_len)
            },
            old(self)@.phase != Phase::Running ==> {
                &&& final(self)@ == old(self)@
                &&& plan == ReadPlan::Idle
            },
    {
        if self.phase == Phase::Running {
            self.reader.poll_new_lines(current_len)
        } else {
            ReadPlan::Idle
        }
    }

    /// Takes the bytes of the span that was asked for and hands back the lines
    /// among them that hold the trigger, in file order: the side effect is to
    /// be fired once for each.
    ///
    /// The bytes are accepted where the session is running and they fill the
    /// span from the offset to the length reported last; the offset then
    /// moves to that length. Otherwise the session stays as it was.
    pub fn scan_new_lines(&mut self, data: &[u8]) -> (scanned: Result<
        Vec<Vec<u8>>,
        SessionError,
    >)
        ensures
            match scanned {
                Ok(hits) => {
                    &&& old(self)@.phase == Phase::Running
                    &&& fills_span(old(self)@.tail, data@.len())
                    &&& hits.deep_view() == matching_lines(lines_of(data@), old(self)@.trigger)
                    &&& final(self)@ == with_tail(old(self)@, after_read(old(self)@.tail))
                },
                Err(SessionError::NotRunning) => {
                    &&& old(self)@.phase != Phase::Running
                    &&& final(self)@ == old(self)@
                },
                Err(SessionError::SpanMismatch) => {
                    &&& old(self)@.phase == Phase::Running
                    &&& !fills_span(old(self)@.tail, data@.len())
                    &&& final(self)@ == old(self)@
                },
            },
    {
        if self.phase != Phase::Running {
            return Err(SessionError::NotRunning);
        }
        match self.reader.take_new_lines(data) {
            Ok(lines) => Ok(select_matching(&lines, self.trigger.as_slice())),
            Err(_) => Err(SessionError::SpanMismatch),
        }
    }

    /// Something failed outside the session.
    ///
    /// While the session starts, any failure ends it at once: nothing is
    /// open, so it is `Stopped`. While it runs, only the loss of the event
    /// queue ends it; a failed read or a failed side effect is for the caller
    /// to report, and the session goes on.
    pub fn on_failure(&mut self, failure: Failure) -> (action: Action)
        ensures
            final(self)@ == after_failure(old(self)@, failure),
            action == standing_action(final(self)@.phase),
    {
        match self.phase {
            Phase::Starting => {
                self.phase = Phase::Stopped;
            },
            Phase::Running => {
                if failure == Failure::WatchSource {
                    self.phase = Phase::Stopping;
                }
            },
            _ => {},
        }
        self.standing()
    }

    /// The file and the watch were released: a stopping session is stopped.
    pub fn finish(&mut self) -> (action: Action)
        ensures
            final(self)@ == after_finish(old(self)@),
            action == standing_action(final(self)@.phase),
    {
        if self.phase == Phase::Stopping {
            self.phase = Phase::Stopped;
        }
        self.standing()
    }
}

} // verus!
