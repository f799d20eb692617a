//! The session controller: starts at most one session at a time and asks a
//! running session to stop, once.

use vstd::prelude::*;
use crate::request::{RequestView, SubscriptionRequest};
use crate::session::SessionError;

verus! {

/// The controller's half of the cancellation signal of one session. It is
/// made unsent at the start of the session and can be sent once.
#[derive(Debug, PartialEq, Eq)]
pub struct CancellationToken {
    sent: bool,
}

impl CancellationToken {
    /// Whether the signal has been sent.
    pub closed spec fn sent(&self) -> bool {
        self.sent
    }

    /// A token whose signal has not been sent.
    pub fn new() -> (token: CancellationToken)
        ensures
            !token.sent(),
    {
        CancellationToken { sent: false }
    }

    /// Whether the signal has been sent.
    pub fn is_sent(&self) -> (sent: bool)
        ensures
            sent == self.sent(),
    {
        self.sent
    }

    /// Marks the signal sent. The result says whether this call was the
    /// first, the one on which the signal is to be sent.
    pub fn send(&mut self) -> (first: bool)
        ensures
            first == !old(self).sent(),
            final(self).sent(),
    {
        let first = !self.sent;
        self.sent = true;
        first
    }
}

/// Whether a session is in flight, and whether it was asked to stop.
#[derive(Clone, Copy, Debug, PartialEq, Eq, Structural)]
pub enum ControllerState {
    /// No session is active.
    Idle,
    /// A session is active and its cancellation signal is unsent.
    Running,
    /// A session is active and its cancellation signal has been sent.
    Stopping,
}

/// Why a start was refused.
#[derive(Clone, Copy, Debug, PartialEq, Eq, Structural)]
pub enum ControllerError {
    AlreadyRunning,
}

/// What a call of `stop` asks of the caller.
#[derive(Clone, Copy, Debug, PartialEq, Eq, Structural)]
pub enum StopAction {
    /// No session is active; nothing was changed.
    NothingToStop,
    /// Send the cancellation signal of the active session, without blocking.
    SendCancel,
    /// The signal of the active session was sent before; nothing was changed.
    AlreadyRequested,
}

/// A lifecycle notification for whoever watches the controller.
#[derive(Clone, Copy, Debug, PartialEq, Eq)]
pub enum Notification {
    Started,
    Stopping,
    Stopped { outcome: Result<(), SessionError> },
}

/// The handle of a session to spawn: the caller makes a fresh cancellation
/// channel for it and runs it to its terminal outcome.
#[derive(Debug, PartialEq, Eq)]
pub struct Launch {
    pub request: SubscriptionRequest,
}

/// The controller of one subscription at a time. It holds a cancellation
/// token exactly while a session is active.
#[derive(Debug)]
pub struct Controller {
    token: Option<CancellationToken>,
}

/// What `stop` does in each state: the next state and the action.
pub open spec fn stop_model(state: ControllerState) -> (ControllerState, StopAction) {
    match state {
        ControllerState::Idle => (ControllerState::Idle, StopAction::NothingToStop),
        ControllerState::Running => (ControllerState::Stopping, StopAction::SendCancel),
        ControllerState::Stopping => (ControllerState::Stopping, StopAction::AlreadyRequested),
    }
}

impl Controller {
    /// The state of the controller.
    pub closed spec fn spec_state(&self) -> ControllerState {
        match self.token {
            None => ControllerState::Idle,
            Some(token) => if token.sent() {
                ControllerState::Stopping
            } else {
                ControllerState::Running
            },
        }
    }

    /// A controller without a session.
    pub fn new() -> (controller: Controller)
        ensures
            controller.state() == ControllerState::Idle,
    {
        Controller { token: None }
    }

    /// The state of the controller.
    #[verifier::when_used_as_spec(spec_state)]
    pub fn state(&self) -> (state: ControllerState)
        ensures
            state == self.state(),
    {
        match &self.token {
            None => ControllerState::Idle,
            Some(token) => if token.is_sent() {
                ControllerState::Stopping
            } else {
                ControllerState::Running
            },
        }
    }

    /// Whether a session is active.
    pub fn is_running(&self) -> (running: bool)
        ensures
            running == (self.state() != ControllerState::Idle),
    {
        self.token.is_some()
    }

    /// Starts a session for `request`. While a session is active the call
    /// fails with `AlreadyRunning` and changes nothing; otherwise the
    /// controller is running, with a fresh token, and the handle carries the
    /// request.
    pub fn start(&mut self, request: SubscriptionRequest) -> (r: Result<Launch, ControllerError>)
        ensures
            old(self).state() == ControllerState::Idle ==> r == Ok::<Launch, ControllerError>(
                Launch { request },
            ) && final(self).state() == ControllerState::Running,
            old(self).state() != ControllerState::Idle ==> r == Err::<Launch, ControllerError>(
                ControllerError::AlreadyRunning,
            ) && *final(self) == *old(self),
    {
        if self.token.is_some() {
            return Err(ControllerError::AlreadyRunning);
        }
        self.token = Some(CancellationToken::new());
        Ok(Launch { request })
    }

    /// Asks the active session to stop. Without a session the call changes
    /// nothing; the first call for a session asks for its signal to be sent;
    /// later calls for the same session change nothing.
    pub fn stop(&mut self) -> (action: StopAction)
        ensures
            (final(self).state(), action) == stop_model(old(self).state()),
            old(self).state() != ControllerState::Running ==> *final(self) == *old(self),
    {
        match &mut self.token {
            None => StopAction::NothingToStop,
            Some(token) => if token.send() {
                StopAction::SendCancel
            } else {
                StopAction::AlreadyRequested
            },
        }
    }

    /// Takes the terminal report of the session: the token is dropped, the
    /// controller is idle again and a new session may start.
    pub fn session_stopped(&mut self, outcome: Result<(), SessionError>) -> (note: Notification)
        ensures
            final(self).state() == ControllerState::Idle,
            note == (Notification::Stopped { outcome }),
    {
        self.token = None;
        Notification::Stopped { outcome }
    }
}

/// What the outside asks of the controller or tells it.
#[derive(Debug, PartialEq, Eq)]
pub enum Event {
    /// Start a session for this request.
    StartSocket { request: SubscriptionRequest },
    /// Stop the active session.
    StopSocket,
    /// The cancellation signal was handed to the session.
    SocketStopping,
    /// The session gave its terminal report.
    SocketStopped { outcome: Result<(), SessionError> },
}

/// The mathematical value of an [`Event`].
pub enum EventView {
    StartSocket { request: RequestView },
    StopSocket,
    SocketStopping,
    SocketStopped { outcome: Result<(), SessionError> },
}

impl View for Event {
    type V = EventView;

    open spec fn view(&self) -> EventView {
        match self {
            Event::StartSocket { request } => EventView::StartSocket { request: request@ },
            Event::StopSocket => EventView::StopSocket,
            Event::SocketStopping => EventView::SocketStopping,
            Event::SocketStopped { outcome } => EventView::SocketStopped { outcome: *outcome },
        }
    }
}

/// What the caller is to do after an event.
#[derive(Debug, PartialEq, Eq)]
pub enum Command {
    /// Spawn the session of this handle.
    Launch(Launch),
    /// The start was refused.
    Refuse(ControllerError),
    /// The result of a stop request.
    Stop(StopAction),
    /// Pass the notification on; nothing else is to be done.
    Notify(Notification),
}

/// The mathematical value of a [`Command`].
pub enum CommandView {
    Launch { request: RequestView },
    Refuse(ControllerError),
    Stop(StopAction),
    Notify(Notification),
}

impl CommandView {
    /// The notification that goes out with the command: `Started` with a
    /// launch, and what a `Notify` carries.
    pub open spec fn notification(self) -> Option<Notification> {
        match self {
            CommandView::Launch { .. } => Some(Notification::Started),
            CommandView::Notify(note) => Some(note),
            _ => None,
        }
    }
}

impl View for Command {
    type V = CommandView;

    open spec fn view(&self) -> CommandView {
        match self {
            Command::Launch(launch) => CommandView::Launch { request: launch.request@ },
            Command::Refuse(error) => CommandView::Refuse(*error),
            Command::Stop(action) => CommandView::Stop(*action),
            Command::Notify(note) => CommandView::Notify(*note),
        }
    }
}

impl Command {
    /// The lifecycle notification that goes out with the command, if any.
    pub fn notification(&self) -> (note: Option<Notification>)
        ensures
            note == self@.notification(),
    {
        match self {
            Command::Launch(_) => Some(Notification::Started),
            Command::Notify(note) => Some(*note),
            _ => None,
        }
    }
}

/// The controller's transition function. A start launches a session only
/// from `Idle`; a stop sends the signal only from `Running`; the `Stopping`
/// notification changes nothing; the terminal report makes the controller
/// idle.
pub open spec fn update_model(state: ControllerState, event: EventView) -> (
    ControllerState,
    CommandView,
) {
    match event {
        EventView::StartSocket { request } => if state == ControllerState::Idle {
            (ControllerState::Running, CommandView::Launch { request })
        } else {
            (state, CommandView::Refuse(ControllerError::AlreadyRunning))
        },
        EventView::StopSocket => (stop_model(state).0, CommandView::Stop(stop_model(state).1)),
        EventView::SocketStopping => (state, CommandView::Notify(Notification::Stopping)),
        EventView::SocketStopped { outcome } => (
            ControllerState::Idle,
            CommandView::Notify(Notification::Stopped { outcome }),
        ),
    }
}

/// Takes one event and says what the caller is to do, as [`update_model`]
/// says.
pub fn update(controller: &mut Controller, event: Event) -> (command: Command)
    ensures
        (final(controller).state(), command@) == update_model(old(controller).state(), event@),
{
    match event {
        Event::StartSocket { request } => match controller.start(request) {
            Ok(launch) => Command::Launch(launch),
            Err(error) => Command::Refuse(error),
        },
        Event::StopSocket => Command::Stop(controller.stop()),
        Event::SocketStopping => Command::Notify(Notification::Stopping),
        Event::SocketStopped { outcome } => Command::Notify(controller.session_stopped(outcome)),
    }
}

/// The count of what a sequence of events has led to.
pub struct Tally {
    pub state: ControllerState,
    /// Sessions launched.
    pub launched: nat,
    /// Terminal reports taken while a session was active.
    pub ended: nat,
    /// Cancellation signals sent to the session that is active now.
    pub signals: nat,
}

/// The tally after a sequence of events, from an idle controller.
pub open spec fn tally(events: Seq<EventView>) -> Tally
    decreases events.len(),
{
    if events.len() == 0 {
        Tally { state: ControllerState::Idle, launched: 0, ended: 0, signals: 0 }
    } else {
        let before = tally(events.drop_last());
        let (state, command) = update_model(before.state, events.last());
        Tally {
            state,
            launched: before.launched + if command is Launch {
                1nat
            } else {
                0nat
            },
            ended: before.ended + if events.last() is SocketStopped && before.state
                != ControllerState::Idle {
                1nat
            } else {
                0nat
            },
            signals: if command is Launch || events.last() is SocketStopped {
                0nat
            } else if command == CommandView::Stop(StopAction::SendCancel) {
                before.signals + 1
            } else {
                before.signals
            },
        }
    }
}

/// At most one session is active at any time: after any sequence of events
/// every launched session but at most one has ended, and that one is there
/// exactly when the controller is not idle. The active session has been sent
/// at most one cancellation signal: none while running, one while stopping.
pub proof fn lemma_one_session(events: Seq<EventView>)
    ensures
        ({
            let t = tally(events);
            &&& t.launched == t.ended + if t.state == ControllerState::Idle {
                0nat
            } else {
                1nat
            }
            &&& t.signals == if t.state == ControllerState::Stopping {
                1nat
            } else {
                0nat
            }
        }),
    decreases events.len(),
{
    if events.len() > 0 {
        lemma_one_session(events.drop_last());
    }
}

} // verus!
