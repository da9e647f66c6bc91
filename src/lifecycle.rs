//! The session lifecycle: which state the background session is in, what
//! the runtime around it must do on each event, and whether values from the
//! tracking callbacks reach a consumer.
use vstd::prelude::*;

verus! {

/// Where the background session stands.
#[derive(Clone, Copy, Debug, PartialEq, Eq, Structural)]
pub enum LifecycleState {
    /// No session; values sent are dropped.
    Idle,
    /// A session was requested and its execution context is being created.
    Starting,
    /// The session task runs and the channel consumers are attached.
    Running,
    /// The session is being torn down; values sent are dropped.
    Cancelling,
}

/// What happened, as reported by the runtime around the coordinator.
#[derive(Clone, Copy, Debug, PartialEq, Eq, Structural)]
pub enum LifecycleEvent {
    /// A session start was requested.
    StartRequested,
    /// The background execution context was created.
    ContextReady,
    /// The background execution context could not be created.
    ContextFailed,
    /// An explicit shutdown was requested.
    ShutdownRequested,
    /// The application was paused.
    PauseSignalled,
    /// The session task ended on its own (for instance, the host went away).
    TaskExited,
    /// The execution context and the channel consumers are gone.
    TornDown,
}

/// What the runtime around the coordinator must do next.
#[derive(Clone, Copy, Debug, PartialEq, Eq, Structural)]
pub enum LifecycleAction {
    Nothing,
    /// Create the background execution context.
    CreateContext,
    /// Spawn the session task on the new context, with fresh channels.
    SpawnSession,
    /// Report once that the session failed to start.
    ReportStartFailure,
    /// Signal cancellation to the session task, then tear the context down.
    CancelAndTearDown,
    /// Tear the context down; no task is waiting for a signal.
    TearDown,
}

/// The abstract state of a [`Coordinator`].
pub struct CoordinatorModel {
    pub state: LifecycleState,
    /// Identity of the current (or last) session.
    pub session: u64,
}

/// The identity that the session after `session` gets.
pub open spec fn following_session(session: u64) -> u64 {
    if session == u64::MAX {
        0
    } else {
        (session + 1) as u64
    }
}

/// The state that `event` leads to from `state`.
pub open spec fn next_state(state: LifecycleState, event: LifecycleEvent) -> LifecycleState {
    match (state, event) {
        (LifecycleState::Idle, LifecycleEvent::StartRequested) => LifecycleState::Starting,
        (LifecycleState::Starting, LifecycleEvent::ContextReady) => LifecycleState::Running,
        (LifecycleState::Starting, LifecycleEvent::ContextFailed) => LifecycleState::Idle,
        (LifecycleState::Starting, LifecycleEvent::ShutdownRequested) => LifecycleState::Cancelling,
        (LifecycleState::Starting, LifecycleEvent::PauseSignalled) => LifecycleState::Cancelling,
        (LifecycleState::Running, LifecycleEvent::ShutdownRequested) => LifecycleState::Cancelling,
        (LifecycleState::Running, LifecycleEvent::PauseSignalled) => LifecycleState::Cancelling,
        (LifecycleState::Running, LifecycleEvent::TaskExited) => LifecycleState::Cancelling,
        (LifecycleState::Cancelling, LifecycleEvent::TornDown) => LifecycleState::Idle,
        _ => state,
    }
}

/// What the runtime must do when `event` happens in `state`.
pub open spec fn next_action(state: LifecycleState, event: LifecycleEvent) -> LifecycleAction {
    match (state, event) {
        (LifecycleState::Idle, LifecycleEvent::StartRequested) => LifecycleAction::CreateContext,
        (LifecycleState::Starting, LifecycleEvent::ContextReady) => LifecycleAction::SpawnSession,
        (LifecycleState::Starting, LifecycleEvent::ContextFailed) => LifecycleAction::ReportStartFailure,
        (LifecycleState::Starting, LifecycleEvent::ShutdownRequested) => LifecycleAction::TearDown,
        (LifecycleState::Starting, LifecycleEvent::PauseSignalled) => LifecycleAction::TearDown,
        (LifecycleState::Running, LifecycleEvent::ShutdownRequested) => LifecycleAction::CancelAndTearDown,
        (LifecycleState::Running, LifecycleEvent::PauseSignalled) => LifecycleAction::CancelAndTearDown,
        (LifecycleState::Running, LifecycleEvent::TaskExited) => LifecycleAction::TearDown,
        _ => LifecycleAction::Nothing,
    }
}

/// The coordinator's state after `event`: a start request from `Idle` opens
/// a new session, every other event keeps the session identity.
pub open spec fn next_model(m: CoordinatorModel, event: LifecycleEvent) -> CoordinatorModel {
    CoordinatorModel {
        state: next_state(m.state, event),
        session: if m.state == LifecycleState::Idle && event == LifecycleEvent::StartRequested {
            following_session(m.session)
        } else {
            m.session
        },
    }
}

/// A value bound for the consumer of one session.
#[derive(Clone, Debug, PartialEq, Eq)]
pub struct Routed<T> {
    pub session: u64,
    pub value: T,
}

/// Owner of "the current session": its state and identity.
#[derive(Debug)]
pub struct Coordinator {
    state: LifecycleState,
    session: u64,
}

impl View for Coordinator {
    type V = CoordinatorModel;

    closed spec fn view(&self) -> CoordinatorModel {
        CoordinatorModel { state: self.state, session: self.session }
    }
}

impl Coordinator {
    /// A coordinator with no session.
    pub fn new() -> (r: Coordinator)
        ensures
            r@.state == LifecycleState::Idle,
            r@.session == 0,
    {
        Coordinator { state: LifecycleState::Idle, session: 0 }
    }

    pub fn state(&self) -> (r: LifecycleState)
        ensures
            r == self@.state,
    {
        self.state
    }

    pub fn session(&self) -> (r: u64)
        ensures
            r == self@.session,
    {
        self.session
    }

    /// Whether channel consumers are attached, so that sent values arrive.
    pub open spec fn consumer_attached(&self) -> bool {
        self@.state == LifecycleState::Running
    }

    /// Whether channel consumers are attached.
    pub fn has_consumer(&self) -> (r: bool)
        ensures
            r == self.consumer_attached(),
    {
        self.state == LifecycleState::Running
    }

    /// Applies `event` and returns what the runtime must do.
    pub fn handle(&mut self, event: LifecycleEvent) -> (action: LifecycleAction)
        ensures
            final(self)@ == next_model(old(self)@, event),
            action == next_action(old(self)@.state, event),
    {
        let state = self.state;
        let (next, action) = match (state, event) {
            (LifecycleState::Idle, LifecycleEvent::StartRequested) => {
                self.session = if self.session == u64::MAX {
                    0
                } else {
                    self.session + 1
                };
                (LifecycleState::Starting, LifecycleAction::CreateContext)
            },
            (LifecycleState::Starting, LifecycleEvent::ContextReady) => {
                (LifecycleState::Running, LifecycleAction::SpawnSession)
            },
            (LifecycleState::Starting, LifecycleEvent::ContextFailed) => {
                (LifecycleState::Idle, LifecycleAction::ReportStartFailure)
            },
            (LifecycleState::Starting, LifecycleEvent::ShutdownRequested)
            | (LifecycleState::Starting, LifecycleEvent::PauseSignalled) => {
                (LifecycleState::Cancelling, LifecycleAction::TearDown)
            },
            (LifecycleState::Running, LifecycleEvent::ShutdownRequested)
            | (LifecycleState::Running, LifecycleEvent::PauseSignalled) => {
                (LifecycleState::Cancelling, LifecycleAction::CancelAndTearDown)
            },
            (LifecycleState::Running, LifecycleEvent::TaskExited) => {
                (LifecycleState::Cancelling, LifecycleAction::TearDown)
            },
            (LifecycleState::Cancelling, LifecycleEvent::TornDown) => {
                (LifecycleState::Idle, LifecycleAction::Nothing)
            },
            _ => (state, LifecycleAction::Nothing),
        };
        self.state = next;
        action
    }

    /// Requests a session start.
    pub fn start(&mut self) -> (action: LifecycleAction)
        ensures
            final(self)@ == next_model(old(self)@, LifecycleEvent::StartRequested),
            action == next_action(old(self)@.state, LifecycleEvent::StartRequested),
    {
        self.handle(LifecycleEvent::StartRequested)
    }

    /// Requests a shutdown of the current session, if any.
    pub fn shutdown(&mut self) -> (action: LifecycleAction)
        ensures
            final(self)@ == next_model(old(self)@, LifecycleEvent::ShutdownRequested),
            action == next_action(old(self)@.state, LifecycleEvent::ShutdownRequested),
    {
        self.handle(LifecycleEvent::ShutdownRequested)
    }

    /// Addresses `value` to the current session's consumer. With no consumer
    /// attached the value is dropped: nothing blocks and no error arises.
    pub fn route<T>(&self, value: T) -> (r: Option<Routed<T>>)
        ensures
            r is Some <==> self.consumer_attached(),
            r is Some ==> r->0 == (Routed { session: self@.session, value }),
    {
        match self.state {
            LifecycleState::Running => Some(Routed { session: self.session, value }),
            _ => None,
        }
    }
}

/// From any state, a shutdown request followed by the end of teardown
/// leaves the coordinator idle, and a running session is cancelled and torn
/// down rather than left behind.
pub proof fn lemma_shutdown_reaches_idle(m: CoordinatorModel)
    ensures
        next_model(next_model(m, LifecycleEvent::ShutdownRequested), LifecycleEvent::TornDown).state
            == LifecycleState::Idle,
        m.state == LifecycleState::Running ==> next_action(
            m.state,
            LifecycleEvent::ShutdownRequested,
        ) == LifecycleAction::CancelAndTearDown,
{
}

/// A pause or a shutdown detaches the consumers at once, whatever the state:
/// from then on values are dropped until a new session is running.
pub proof fn lemma_cancel_detaches(m: CoordinatorModel)
    ensures
        next_model(m, LifecycleEvent::PauseSignalled).state != LifecycleState::Running,
        next_model(m, LifecycleEvent::ShutdownRequested).state != LifecycleState::Running,
        next_model(m, LifecycleEvent::TaskExited).state != LifecycleState::Running,
{
}

/// Starting a session, shutting it down at once and starting again from
/// idle succeeds again, and the second session has an identity of its own:
/// values routed to the first never address the second.
pub proof fn lemma_restart_is_fresh(m: CoordinatorModel)
    requires
        m.state == LifecycleState::Idle,
    ensures
        ({
            let started = next_model(next_model(m, LifecycleEvent::StartRequested), LifecycleEvent::ContextReady);
            let stopped = next_model(next_model(started, LifecycleEvent::ShutdownRequested), LifecycleEvent::TornDown);
            let restarted = next_model(next_model(stopped, LifecycleEvent::StartRequested), LifecycleEvent::ContextReady);
            &&& started.state == LifecycleState::Running
            &&& stopped.state == LifecycleState::Idle
            &&& next_action(stopped.state, LifecycleEvent::StartRequested) == LifecycleAction::CreateContext
            &&& restarted.state == LifecycleState::Running
            &&& restarted.session != started.session
        }),
{
}

} // verus!
