//! The lifecycle coordinator: which session is current, whether it runs, and
//! what the host must do next.
//!
//! The coordinator never blocks and never touches a window, a thread or a
//! sandbox itself. It is a state machine: the host reports an [`Event`],
//! the coordinator moves to its next state and answers with the
//! [`Action`]s the host has to perform, in order.

use crate::error::SessionError;
use vstd::prelude::*;
use vstd::string::StringExecFns;

verus! {

#[derive(Clone, Copy, Debug, PartialEq, Eq, Structural)]
pub enum Phase {
    /// No child window and no running session.
    Idle,
    /// A spawn was accepted; the child window is being opened.
    Spawning,
    /// The guest thread and the animation pump of the current session run.
    Running,
    /// Both stop signals are out; the fresh session is being built.
    StopRequested,
}

/// What the embedding application shows as the state of the session.
#[derive(Clone, Copy, Debug, PartialEq, Eq, Structural)]
pub enum Status {
    Idle,
    Running,
    Failed(SessionError),
}

impl Status {
    /// The status as text: `idle`, `running`, or the error's message.
    pub open spec fn text(self) -> Seq<char> {
        match self {
            Status::Idle => "idle"@,
            Status::Running => "running"@,
            Status::Failed(error) => error.message(),
        }
    }

    pub fn describe(&self) -> (text: String)
        ensures
            text@ == self.text(),
    {
        match self {
            Status::Idle => String::from_str("idle"),
            Status::Running => String::from_str("running"),
            Status::Failed(error) => error.describe(),
        }
    }
}

/// What the host reports to the coordinator.
#[derive(Clone, Copy, Debug, PartialEq, Eq)]
pub enum Event {
    /// The user asked for a guest module to be started.
    SpawnRequested,
    /// The child window was closed or the user navigated away.
    StopRequested,
    /// The child window asked for by [`Action::OpenWindow`] exists.
    WindowOpened { window: u64 },
    /// The session asked for by [`Action::RebuildSession`] is ready.
    SessionRebuilt,
    /// Building that session failed.
    RebuildFailed,
    /// The guest thread of `session` returned.
    GuestFinished { session: u64, result: Result<(), SessionError> },
    /// A stop signal could not be delivered because its receiver was gone.
    SignalUndelivered,
}

/// What the coordinator asks the host to do.
#[derive(Clone, Copy, Debug, PartialEq, Eq, Structural)]
pub enum Action {
    /// Create the child window and the surface bound to it, then report
    /// [`Event::WindowOpened`].
    OpenWindow,
    /// Move the session and the surface to a new guest thread and run it.
    StartGuest { session: u64 },
    /// Start the animation pump with the proxy of the session's surface.
    StartPump { session: u64 },
    /// Notify the stop channel watched by the animation pump.
    SignalPump,
    /// Notify the stop channel watched by the other helper threads.
    SignalHelpers,
    /// Hide the child window and forget it.
    HideWindow { window: u64 },
    /// Drop the stop channels and the session, build fresh ones, then report
    /// [`Event::SessionRebuilt`] or [`Event::RebuildFailed`].
    RebuildSession,
}

/// Names what the delivery of a stop signal amounted to: a signal that
/// found no receiver is a closed channel, which is harmless.
pub fn signal_result(delivered: bool) -> (result: Result<(), SessionError>)
    ensures
        delivered ==> result == Ok::<(), SessionError>(()),
        !delivered ==> result == Err::<(), SessionError>(SessionError::ChannelClosed),
{
    if delivered {
        Ok(())
    } else {
        Err(SessionError::ChannelClosed)
    }
}

/// Everything the coordinator remembers between two events.
#[derive(Clone, Copy, Debug, PartialEq, Eq, Structural)]
pub struct CoordinatorState {
    pub phase: Phase,
    /// Identifier of the current session. A session that was stopped is
    /// never current again.
    pub session: u64,
    /// The current session is built and has not been started.
    pub ready: bool,
    /// The child window the running session draws into.
    pub window: Option<u64>,
    /// A spawn is waiting for the stop in progress to complete.
    pub queued: bool,
    pub status: Status,
}

impl CoordinatorState {
    /// The states the coordinator can be in. A running session always has
    /// its window and a successor identifier; nothing is queued unless a
    /// stop is in progress.
    pub open spec fn wf(self) -> bool {
        match self.phase {
            Phase::Idle => self.window is None && !self.queued,
            Phase::Spawning => self.window is None && !self.queued && self.ready && self.session
                < u64::MAX,
            Phase::Running => self.window is Some && !self.queued && !self.ready && self.session
                < u64::MAX && self.status == Status::Running,
            Phase::StopRequested => self.window is None && !self.ready,
        }
    }
}

/// The state of a host that has just started: one unused session, no child
/// window.
pub open spec fn initial_state() -> CoordinatorState {
    CoordinatorState {
        phase: Phase::Idle,
        session: 0,
        ready: true,
        window: None,
        queued: false,
        status: Status::Idle,
    }
}

/// The identifier of the session that replaces `session`.
pub open spec fn successor(session: u64) -> u64 {
    if session < u64::MAX {
        (session + 1) as u64
    } else {
        session
    }
}

/// What a finished guest leaves in the status line.
pub open spec fn status_after(result: Result<(), SessionError>) -> Status {
    match result {
        Ok(_) => Status::Idle,
        Err(error) => Status::Failed(error),
    }
}

/// The stop sequence: both stop channels are notified, the child window is
/// hidden, and a fresh session is built.
pub open spec fn stop_actions(s: CoordinatorState) -> Seq<Action> {
    match s.window {
        Some(window) => seq![
            Action::SignalPump,
            Action::SignalHelpers,
            Action::HideWindow { window },
            Action::RebuildSession,
        ],
        None => seq![Action::SignalPump, Action::SignalHelpers, Action::RebuildSession],
    }
}

/// The state in which the stop sequence leaves the coordinator: the old
/// session is abandoned and its successor is under construction.
pub open spec fn stopping(s: CoordinatorState, queued: bool, status: Status) -> CoordinatorState {
    CoordinatorState {
        phase: Phase::StopRequested,
        session: successor(s.session),
        ready: false,
        window: None,
        queued,
        status,
    }
}

/// A spawn request met while idle. With an unused session at hand the child
/// window is opened; without one the session is built first and the spawn
/// waits for it. Either way an error left by an earlier session is
/// cleared. Once the session identifiers are used up the request is
/// refused.
pub open spec fn spawn_when_idle(s: CoordinatorState) -> (CoordinatorState, Seq<Action>) {
    if s.session == u64::MAX {
        (
            CoordinatorState { status: Status::Failed(SessionError::ConfigurationError), ..s },
            Seq::<Action>::empty(),
        )
    } else if s.ready {
        (
            CoordinatorState { phase: Phase::Spawning, status: Status::Idle, ..s },
            seq![Action::OpenWindow],
        )
    } else {
        (
            CoordinatorState {
                phase: Phase::StopRequested,
                queued: true,
                status: Status::Idle,
                ..s
            },
            seq![Action::RebuildSession],
        )
    }
}

/// The state a completed stop settles in.
pub open spec fn settled(s: CoordinatorState) -> CoordinatorState {
    CoordinatorState { phase: Phase::Idle, ready: true, queued: false, ..s }
}

/// The coordinator's transition function: the state after `event` and the
/// actions the host must perform, in order.
pub open spec fn step(s: CoordinatorState, event: Event) -> (CoordinatorState, Seq<Action>) {
    match s.phase {
        Phase::Idle => match event {
            Event::SpawnRequested => spawn_when_idle(s),
            Event::WindowOpened { window } => (s, seq![Action::HideWindow { window }]),
            _ => (s, Seq::<Action>::empty()),
        },
        Phase::Spawning => match event {
            Event::StopRequested => (
                CoordinatorState { phase: Phase::Idle, ..s },
                Seq::<Action>::empty(),
            ),
            Event::WindowOpened { window } => (
                CoordinatorState {
                    phase: Phase::Running,
                    ready: false,
                    window: Some(window),
                    status: Status::Running,
                    ..s
                },
                seq![
                    Action::StartGuest { session: s.session },
                    Action::StartPump { session: s.session },
                ],
            ),
            _ => (s, Seq::<Action>::empty()),
        },
        Phase::Running => match event {
            Event::SpawnRequested => (stopping(s, true, Status::Idle), stop_actions(s)),
            Event::StopRequested => (stopping(s, false, Status::Idle), stop_actions(s)),
            Event::WindowOpened { window } => (s, seq![Action::HideWindow { window }]),
            Event::GuestFinished { session, result } => if session == s.session {
                (stopping(s, false, status_after(result)), stop_actions(s))
            } else {
                (s, Seq::<Action>::empty())
            },
            _ => (s, Seq::<Action>::empty()),
        },
        Phase::StopRequested => match event {
            Event::SpawnRequested => (
                CoordinatorState { queued: true, ..s },
                Seq::<Action>::empty(),
            ),
            Event::StopRequested => (
                CoordinatorState { queued: false, ..s },
                Seq::<Action>::empty(),
            ),
            Event::WindowOpened { window } => (s, seq![Action::HideWindow { window }]),
            Event::SessionRebuilt => if s.queued {
                spawn_when_idle(settled(s))
            } else {
                (settled(s), Seq::<Action>::empty())
            },
            Event::RebuildFailed => (
                CoordinatorState {
                    phase: Phase::Idle,
                    ready: false,
                    queued: false,
                    status: Status::Failed(SessionError::ConfigurationError),
                    ..s
                },
                Seq::<Action>::empty(),
            ),
            _ => (s, Seq::<Action>::empty()),
        },
    }
}

/// The state reached from `s` after all of `events`, oldest first.
pub open spec fn run(s: CoordinatorState, events: Seq<Event>) -> CoordinatorState
    decreases events.len(),
{
    if events.len() == 0 {
        s
    } else {
        step(run(s, events.drop_last()), events.last()).0
    }
}

/// The lifecycle coordinator of one host.
pub struct Coordinator {
    state: CoordinatorState,
}

impl View for Coordinator {
    type V = CoordinatorState;

    closed spec fn view(&self) -> CoordinatorState {
        self.state
    }
}

impl Coordinator {
    /// The coordinator of a host that has built its first session.
    pub fn new() -> (coordinator: Self)
        ensures
            coordinator@ == initial_state(),
            coordinator@.wf(),
    {
        Coordinator {
            state: CoordinatorState {
                phase: Phase::Idle,
                session: 0,
                ready: true,
                window: None,
                queued: false,
                status: Status::Idle,
            },
        }
    }

    /// Everything the coordinator remembers, as a value.
    pub fn snapshot(&self) -> (state: CoordinatorState)
        ensures
            state == self@,
    {
        self.state
    }

    pub fn phase(&self) -> (phase: Phase)
        ensures
            phase == self@.phase,
    {
        self.state.phase
    }

    /// The identifier under which the current session reports back.
    pub fn session(&self) -> (session: u64)
        ensures
            session == self@.session,
    {
        self.state.session
    }

    pub fn status(&self) -> (status: Status)
        ensures
            status == self@.status,
    {
        self.state.status
    }

    /// Whether a session is running, which is when frame requests and input
    /// belong to the guest.
    pub fn is_active(&self) -> (active: bool)
        ensures
            active == (self@.phase == Phase::Running),
    {
        self.state.phase == Phase::Running
    }

    /// The child window of the running session.
    pub fn active_window(&self) -> (window: Option<u64>)
        ensures
            window == self@.window,
    {
        self.state.window
    }

    /// Takes `event` in and answers with what the host must do now.
    pub fn handle(&mut self, event: Event) -> (actions: Vec<Action>)
        ensures
            final(self)@ == step(old(self)@, event).0,
            actions@ == step(old(self)@, event).1,
            old(self)@.wf() ==> final(self)@.wf(),
    {
        let s = self.state;
        match s.phase {
            Phase::Idle => match event {
                Event::SpawnRequested => self.spawn_when_idle(),
                Event::WindowOpened { window } => vec![Action::HideWindow { window }],
                _ => Vec::new(),
            },
            Phase::Spawning => match event {
                Event::StopRequested => {
                    self.state.phase = Phase::Idle;
                    Vec::new()
                },
                Event::WindowOpened { window } => {
                    self.state = CoordinatorState {
                        phase: Phase::Running,
                        session: s.session,
                        ready: false,
                        window: Some(window),
                        queued: s.queued,
                        status: Status::Running,
                    };
                    vec![
                        Action::StartGuest { session: s.session },
                        Action::StartPump { session: s.session },
                    ]
                },
                _ => Vec::new(),
            },
            Phase::Running => match event {
                Event::SpawnRequested => self.stop(true, Status::Idle),
                Event::StopRequested => self.stop(false, Status::Idle),
                Event::WindowOpened { window } => vec![Action::HideWindow { window }],
                Event::GuestFinished { session, result } => {
                    if session == s.session {
                        let status = match result {
                            Ok(_) => Status::Idle,
                            Err(error) => Status::Failed(error),
                        };
                        self.stop(false, status)
                    } else {
                        Vec::new()
                    }
                },
                _ => Vec::new(),
            },
            Phase::StopRequested => match event {
                Event::SpawnRequested => {
                    self.state.queued = true;
                    Vec::new()
                },
                Event::StopRequested => {
                    self.state.queued = false;
                    Vec::new()
                },
                Event::WindowOpened { window } => vec![Action::HideWindow { window }],
                Event::SessionRebuilt => {
                    self.state.phase = Phase::Idle;
                    self.state.ready = true;
                    self.state.queued = false;
                    if s.queued {
                        self.spawn_when_idle()
                    } else {
                        Vec::new()
                    }
                },
                Event::RebuildFailed => {
                    self.state.phase = Phase::Idle;
                    self.state.ready = false;
                    self.state.queued = false;
                    self.state.status = Status::Failed(SessionError::ConfigurationError);
                    Vec::new()
                },
                _ => Vec::new(),
            },
        }
    }

    fn spawn_when_idle(&mut self) -> (actions: Vec<Action>)
        ensures
            final(self)@ == spawn_when_idle(old(self)@).0,
            actions@ == spawn_when_idle(old(self)@).1,
    {
        if self.state.session == u64::MAX {
            self.state.status = Status::Failed(SessionError::ConfigurationError);
            Vec::new()
        } else if self.state.ready {
            self.state.phase = Phase::Spawning;
            self.state.status = Status::Idle;
            vec![Action::OpenWindow]
        } else {
            self.state.phase = Phase::StopRequested;
            self.state.queued = true;
            self.state.status = Status::Idle;
            vec![Action::RebuildSession]
        }
    }

    fn stop(&mut self, queued: bool, status: Status) -> (actions: Vec<Action>)
        ensures
            final(self)@ == stopping(old(self)@, queued, status),
            actions@ == stop_actions(old(self)@),
    {
        let actions = match self.state.window {
            Some(window) => vec![
                Action::SignalPump,
                Action::SignalHelpers,
                Action::HideWindow { window },
                Action::RebuildSession,
            ],
            None => vec![Action::SignalPump, Action::SignalHelpers, Action::RebuildSession],
        };
        let session = if self.state.session < u64::MAX {
            self.state.session + 1
        } else {
            self.state.session
        };
        self.state = CoordinatorState {
            phase: Phase::StopRequested,
            session,
            ready: false,
            window: None,
            queued,
            status,
        };
        actions
    }
}

/// Every transition leads from a well-formed state to a well-formed state.
pub proof fn lemma_step_preserves_wf(s: CoordinatorState, event: Event)
    requires
        s.wf(),
    ensures
        step(s, event).0.wf(),
{
}

/// Whatever the host reports, the coordinator stays well-formed.
pub proof fn lemma_run_preserves_wf(s: CoordinatorState, events: Seq<Event>)
    requires
        s.wf(),
    ensures
        run(s, events).wf(),
    decreases events.len(),
{
    if events.len() > 0 {
        lemma_run_preserves_wf(s, events.drop_last());
        lemma_step_preserves_wf(run(s, events.drop_last()), events.last());
    }
}

/// A stop signal that found no receiver is no event at all: the state stays
/// as it is and nothing is asked of the host.
pub proof fn lemma_undelivered_signal_is_ignored(s: CoordinatorState)
    ensures
        step(s, Event::SignalUndelivered) == (s, Seq::<Action>::empty()),
{
}

/// A report from a session that is not the current one changes nothing: a
/// stale signal cannot affect a new session.
pub proof fn lemma_stale_report_is_ignored(
    s: CoordinatorState,
    session: u64,
    result: Result<(), SessionError>,
)
    requires
        session != s.session,
    ensures
        step(s, Event::GuestFinished { session, result }) == (s, Seq::<Action>::empty()),
{
}

/// Session identifiers only grow, so a session that was replaced is never
/// current again.
pub proof fn lemma_sessions_never_return(s: CoordinatorState, events: Seq<Event>)
    ensures
        run(s, events).session >= s.session,
    decreases events.len(),
{
    if events.len() > 0 {
        lemma_sessions_never_return(s, events.drop_last());
    }
}

/// A stop or a spawn that meets a running session abandons it at once: both
/// stop channels are notified first, and the state that follows belongs to
/// the successor.
pub proof fn lemma_stop_abandons_the_session(s: CoordinatorState, event: Event)
    requires
        s.wf(),
        s.phase == Phase::Running,
        event == Event::StopRequested || event == Event::SpawnRequested,
    ensures
        step(s, event).0.phase == Phase::StopRequested,
        step(s, event).0.session == s.session + 1,
        step(s, event).0.window is None,
        step(s, event).0.queued == (event == Event::SpawnRequested),
        step(s, event).1.len() == 4,
        step(s, event).1[0] == Action::SignalPump,
        step(s, event).1[1] == Action::SignalHelpers,
        step(s, event).1[2] == (Action::HideWindow { window: s.window->0 }),
        step(s, event).1[3] == Action::RebuildSession,
{
}

/// A stop does not wait for the guest: from a running session, the stop
/// request and the report that the fresh session is built lead to the
/// idle phase, with no word from the guest thread in between.
pub proof fn lemma_stop_does_not_wait_for_the_guest(s: CoordinatorState)
    requires
        s.wf(),
        s.phase == Phase::Running,
    ensures
        run(s, seq![Event::StopRequested, Event::SessionRebuilt]).phase == Phase::Idle,
        run(s, seq![Event::StopRequested, Event::SessionRebuilt]).window is None,
        run(s, seq![Event::StopRequested, Event::SessionRebuilt]).ready,
        run(s, seq![Event::StopRequested, Event::SessionRebuilt]).session == s.session + 1,
{
    let events = seq![Event::StopRequested, Event::SessionRebuilt];
    assert(events.drop_last() =~= seq![Event::StopRequested]);
    assert(events.drop_last().drop_last() =~= Seq::<Event>::empty());
    reveal_with_fuel(run, 3);
}

/// A session that ends in an error is torn down like one that is stopped:
/// the error is kept as the status, both stop channels are notified, and
/// once the fresh session is built the coordinator is idle.
pub proof fn lemma_failed_session_is_torn_down(s: CoordinatorState, error: SessionError)
    requires
        s.wf(),
        s.phase == Phase::Running,
    ensures
        ({
            let report = Event::GuestFinished { session: s.session, result: Err(error) };
            let (stopping, actions) = step(s, report);
            let (idle, none) = step(stopping, Event::SessionRebuilt);
            &&& actions == stop_actions(s)
            &&& stopping.phase == Phase::StopRequested
            &&& stopping.status == Status::Failed(error)
            &&& idle.phase == Phase::Idle
            &&& idle.status == Status::Failed(error)
            &&& none.len() == 0
        }),
{
}

/// The guest and the pump are only ever started together, for the current
/// session, and only when the window the coordinator asked for has opened.
pub proof fn lemma_threads_start_together(s: CoordinatorState, event: Event, session: u64)
    requires
        step(s, event).1.contains(Action::StartGuest { session }) || step(s, event).1.contains(
            Action::StartPump { session },
        ),
    ensures
        s.phase == Phase::Spawning,
        event is WindowOpened,
        session == s.session,
        step(s, event).1 == seq![Action::StartGuest { session }, Action::StartPump { session }],
        step(s, event).0.phase == Phase::Running,
{
    let actions = step(s, event).1;
    if actions.contains(Action::StartGuest { session }) {
        let i = choose|i: int| 0 <= i < actions.len() && actions[i] == (Action::StartGuest {
            session,
        });
        assert(actions[i] == (Action::StartGuest { session }));
    } else {
        let i = choose|i: int| 0 <= i < actions.len() && actions[i] == (Action::StartPump {
            session,
        });
        assert(actions[i] == (Action::StartPump { session }));
    }
}

/// Whether, somewhere along `events`, a stop in progress was completed by a
/// freshly built session.
pub open spec fn passes_full_stop(s: CoordinatorState, events: Seq<Event>) -> bool {
    exists|i: int|
        0 <= i < events.len() && run(s, #[trigger] events.take(i)).phase == Phase::StopRequested
            && events[i] == Event::SessionRebuilt
}

proof fn lemma_full_stop_extends(s: CoordinatorState, events: Seq<Event>)
    requires
        events.len() > 0,
        passes_full_stop(s, events.drop_last()),
    ensures
        passes_full_stop(s, events),
{
    let shorter = events.drop_last();
    let i = choose|i: int|
        0 <= i < shorter.len() && run(s, #[trigger] shorter.take(i)).phase == Phase::StopRequested
            && shorter[i] == Event::SessionRebuilt;
    assert(shorter.take(i) == events.take(i));
}

proof fn lemma_other_session_needs_full_stop(s: CoordinatorState, events: Seq<Event>)
    requires
        s.wf(),
        s.phase == Phase::Running,
    ensures
        ({
            let t = run(s, events);
            t.session != s.session && (t.ready || t.phase == Phase::Running) ==> passes_full_stop(
                s,
                events,
            )
        }),
        ({
            let t = run(s, events);
            t.session == s.session ==> t == s
        }),
    decreases events.len(),
{
    if events.len() > 0 {
        let shorter = events.drop_last();
        let before = run(s, shorter);
        lemma_other_session_needs_full_stop(s, shorter);
        lemma_run_preserves_wf(s, shorter);
        lemma_sessions_never_return(s, shorter);
        if before.session != s.session {
            if before.phase == Phase::StopRequested {
                if events.last() == Event::SessionRebuilt {
                    assert(events.take(events.len() - 1) == shorter);
                }
            } else if before.ready || before.phase == Phase::Running {
                lemma_full_stop_extends(s, events);
            }
        }
    }
}

/// Spawning while a session runs always goes through a full stop: if the
/// coordinator, starting from a running session, is later found running a
/// different one, then in between a stop was in progress and was completed
/// by a freshly built session. Until then the state belongs to the first
/// session alone, so two sessions never run at once.
pub proof fn lemma_respawn_passes_through_stop(s: CoordinatorState, events: Seq<Event>)
    requires
        s.wf(),
        s.phase == Phase::Running,
        run(s, events).phase == Phase::Running,
        run(s, events).session != s.session,
    ensures
        passes_full_stop(s, events),
{
    lemma_other_session_needs_full_stop(s, events);
}

} // verus!
