//! The subscription session as a state machine: each event from the
//! transport or the controller gives the next state and one directive.

use vstd::prelude::*;
use crate::message::{
    classified_view, classify, classify_text_model, CandleView, ClassifiedMessage, MessageView,
    ParseError,
};
use crate::codec::is_plain;
use crate::request::{subscribe_text, subscribe_text_with, RequestView, SubscriptionRequest};

verus! {

/// Lifecycle of one session.
#[derive(Clone, Copy, Debug, PartialEq, Eq, Structural)]
pub enum SessionState {
    Idle,
    Connecting,
    Subscribed,
    Stopping,
    Stopped,
}

/// What can go wrong in a session. Only `ConnectFailed`,
/// `SubscriptionRejected` and `RemoteClosed` end one; the other two are
/// passed on as notices.
#[derive(Clone, Copy, Debug, PartialEq, Eq, Structural)]
pub enum SessionError {
    ConnectFailed,
    SubscribeFailed,
    SubscriptionRejected,
    RemoteClosed,
    CloseFailed,
}

/// The outside work whose result the session waits for.
#[derive(Clone, Copy, Debug, PartialEq, Eq, Structural)]
pub enum Awaiting {
    /// Nothing has been asked for yet.
    Start,
    /// The transport is being opened.
    ConnectResult,
    /// The subscribe frame is being sent.
    SendResult,
    /// The race between the cancellation signal and the next frame.
    Traffic,
    /// The close handshake.
    CloseResult,
    /// The session has reported and waits for nothing.
    Nothing,
}

/// Where a session stands.
#[derive(Clone, Copy, Debug, PartialEq, Eq)]
pub struct Progress {
    pub awaiting: Awaiting,
    /// Whether the subscription has been acknowledged.
    pub subscribed: bool,
    /// What the terminal report will say, or has said.
    pub outcome: Result<(), SessionError>,
}

impl Progress {
    /// A session that has not started.
    pub open spec fn initial() -> Progress {
        Progress { awaiting: Awaiting::Start, subscribed: false, outcome: Ok(()) }
    }

    /// The lifecycle state.
    pub open spec fn state(self) -> SessionState {
        match self.awaiting {
            Awaiting::Start | Awaiting::ConnectResult => SessionState::Idle,
            Awaiting::SendResult => SessionState::Connecting,
            Awaiting::Traffic => if self.subscribed {
                SessionState::Subscribed
            } else {
                SessionState::Connecting
            },
            Awaiting::CloseResult => SessionState::Stopping,
            Awaiting::Nothing => SessionState::Stopped,
        }
    }

    /// Until a session begins to stop, nothing has failed, and nothing is
    /// acknowledged before the race for traffic has begun.
    pub open spec fn wf(self) -> bool {
        match self.awaiting {
            Awaiting::Start | Awaiting::ConnectResult | Awaiting::SendResult => {
                !self.subscribed && self.outcome == Ok::<(), SessionError>(())
            },
            Awaiting::Traffic => self.outcome == Ok::<(), SessionError>(()),
            _ => true,
        }
    }
}

/// An event with its frame already classified.
pub enum InputView {
    Start,
    ConnectOk,
    ConnectFailed,
    SendOk,
    SendFailed,
    Cancel,
    Message(Result<MessageView, ParseError>),
    StreamEnded,
    CloseOk,
    CloseFailed,
}

/// The mathematical value of a [`Notice`].
pub enum NoticeView {
    Failure(SessionError),
    Dropped(ParseError),
    Rejected { reason: Seq<char> },
}

/// The mathematical value of a [`Directive`].
pub enum DirectiveView {
    Connect,
    Subscribe { frame: Seq<char> },
    Await,
    Close,
    Report { outcome: Result<(), SessionError> },
    Ignore,
}

/// The mathematical value of a [`Step`].
pub struct StepView {
    pub prices: Seq<Seq<char>>,
    pub notice: Option<NoticeView>,
    pub directive: DirectiveView,
}

/// A step that delivers nothing and notes nothing.
pub open spec fn quiet(directive: DirectiveView) -> StepView {
    StepView { prices: Seq::empty(), notice: None, directive }
}

/// A step that delivers nothing and passes one notice on.
pub open spec fn noted(notice: NoticeView, directive: DirectiveView) -> StepView {
    StepView { prices: Seq::empty(), notice: Some(notice), directive }
}

/// The closing prices of a list of candles, in order.
pub open spec fn closes(entries: Seq<CandleView>) -> Seq<Seq<char>> {
    Seq::new(entries.len(), |i: int| entries[i].close)
}

/// The prices that a message carries: the closing prices of a snapshot, in
/// order; the one of an update; none for anything else.
pub open spec fn message_prices(message: MessageView) -> Seq<Seq<char>> {
    match message {
        MessageView::OhlcSnapshot { entries } => closes(entries),
        MessageView::OhlcUpdate { entry } => seq![entry.close],
        _ => Seq::empty(),
    }
}

/// What a classified frame does to a session. Outside the race for traffic a
/// frame is discarded. In it, an acknowledgement marks the session
/// subscribed; a rejection begins the stop; prices are delivered only once
/// subscribed; everything else is dropped, and the race goes on.
pub open spec fn on_message_model(p: Progress, classified: Result<MessageView, ParseError>) -> (
    Progress,
    StepView,
) {
    if p.awaiting != Awaiting::Traffic {
        (p, quiet(DirectiveView::Ignore))
    } else {
        match classified {
            Ok(MessageView::AckSuccess) => (
                Progress { subscribed: true, ..p },
                quiet(DirectiveView::Await),
            ),
            Ok(MessageView::AckFailure { reason }) => (
                Progress {
                    awaiting: Awaiting::CloseResult,
                    outcome: Err(SessionError::SubscriptionRejected),
                    ..p
                },
                noted(NoticeView::Rejected { reason }, DirectiveView::Close),
            ),
            Ok(message) => (
                p,
                StepView {
                    prices: if p.subscribed {
                        message_prices(message)
                    } else {
                        Seq::empty()
                    },
                    notice: None,
                    directive: DirectiveView::Await,
                },
            ),
            Err(error) => (p, noted(NoticeView::Dropped(error), DirectiveView::Await)),
        }
    }
}

/// The transition function: the next progress and the step to take. An
/// event that does not answer the work in flight changes nothing and is
/// ignored.
pub open spec fn react(p: Progress, request: RequestView, input: InputView) -> (
    Progress,
    StepView,
) {
    match (p.awaiting, input) {
        (Awaiting::Start, InputView::Start) => (
            Progress { awaiting: Awaiting::ConnectResult, ..p },
            quiet(DirectiveView::Connect),
        ),
        (Awaiting::ConnectResult, InputView::ConnectOk) => (
            Progress { awaiting: Awaiting::SendResult, ..p },
            quiet(DirectiveView::Subscribe { frame: subscribe_text(request) }),
        ),
        (Awaiting::ConnectResult, InputView::ConnectFailed) => (
            Progress {
                awaiting: Awaiting::Nothing,
                outcome: Err(SessionError::ConnectFailed),
                ..p
            },
            quiet(DirectiveView::Report { outcome: Err(SessionError::ConnectFailed) }),
        ),
        (Awaiting::SendResult, InputView::SendOk) => (
            Progress { awaiting: Awaiting::Traffic, ..p },
            quiet(DirectiveView::Await),
        ),
        (Awaiting::SendResult, InputView::SendFailed) => (
            Progress { awaiting: Awaiting::Traffic, ..p },
            noted(NoticeView::Failure(SessionError::SubscribeFailed), DirectiveView::Await),
        ),
        (Awaiting::Traffic, InputView::Cancel) => (
            Progress { awaiting: Awaiting::CloseResult, ..p },
            quiet(DirectiveView::Close),
        ),
        (Awaiting::Traffic, InputView::StreamEnded) => (
            Progress {
                awaiting: Awaiting::CloseResult,
                outcome: Err(SessionError::RemoteClosed),
                ..p
            },
            quiet(DirectiveView::Close),
        ),
        (Awaiting::Traffic, InputView::Message(classified)) => on_message_model(p, classified),
        (Awaiting::CloseResult, InputView::CloseOk) => (
            Progress { awaiting: Awaiting::Nothing, ..p },
            quiet(DirectiveView::Report { outcome: p.outcome }),
        ),
        (Awaiting::CloseResult, InputView::CloseFailed) => (
            Progress { awaiting: Awaiting::Nothing, ..p },
            noted(
                NoticeView::Failure(SessionError::CloseFailed),
                DirectiveView::Report { outcome: p.outcome },
            ),
        ),
        _ => (p, quiet(DirectiveView::Ignore)),
    }
}

/// Something worth a log line that does not change what the session does.
#[derive(Clone, Debug, PartialEq, Eq)]
pub enum Notice {
    /// A failure that does not end the session.
    Failure(SessionError),
    /// A frame was dropped because it could not be classified.
    Dropped(ParseError),
    /// The subscription was rejected, for this reason.
    Rejected { reason: String },
}

impl View for Notice {
    type V = NoticeView;

    open spec fn view(&self) -> NoticeView {
        match self {
            Notice::Failure(error) => NoticeView::Failure(*error),
            Notice::Dropped(error) => NoticeView::Dropped(*error),
            Notice::Rejected { reason } => NoticeView::Rejected { reason: reason@ },
        }
    }
}

/// The outside work that the driver of a session is to do next.
#[derive(Debug, PartialEq, Eq)]
pub enum Directive {
    /// Open the transport; answer with `ConnectOk` or `ConnectFailed`.
    Connect,
    /// Send this text frame; answer with `SendOk` or `SendFailed`.
    Subscribe { frame: String },
    /// Wait for the cancellation signal or the next frame, whichever is
    /// ready first; answer with `Cancel`, `Frame` or `StreamEnded`.
    Await,
    /// Close the transport; answer with `CloseOk` or `CloseFailed`.
    Close,
    /// Report that the session has stopped, with this outcome. It is the last
    /// directive of a session.
    Report { outcome: Result<(), SessionError> },
    /// The event did not answer the work in flight: go on waiting for that.
    Ignore,
}

impl View for Directive {
    type V = DirectiveView;

    open spec fn view(&self) -> DirectiveView {
        match self {
            Directive::Connect => DirectiveView::Connect,
            Directive::Subscribe { frame } => DirectiveView::Subscribe { frame: frame@ },
            Directive::Await => DirectiveView::Await,
            Directive::Close => DirectiveView::Close,
            Directive::Report { outcome } => DirectiveView::Report { outcome: *outcome },
            Directive::Ignore => DirectiveView::Ignore,
        }
    }
}

/// The texts of a list of strings, in order.
pub open spec fn texts(strings: Seq<String>) -> Seq<Seq<char>> {
    Seq::new(strings.len(), |i: int| strings[i]@)
}

/// The view of an optional notice.
pub open spec fn notice_view(notice: Option<Notice>) -> Option<NoticeView> {
    match notice {
        Some(n) => Some(n@),
        None => None,
    }
}

/// What one event leads to: prices for the sink, in the order observed; at
/// most one notice; and the next directive.
#[derive(Debug, PartialEq, Eq)]
pub struct Step {
    pub prices: Vec<String>,
    pub notice: Option<Notice>,
    pub directive: Directive,
}

impl View for Step {
    type V = StepView;

    open spec fn view(&self) -> StepView {
        StepView {
            prices: texts(self.prices@),
            notice: notice_view(self.notice),
            directive: self.directive@,
        }
    }
}

/// What the driver hands to the session: the result of the work it was
/// directed to do.
#[derive(Clone, Debug, PartialEq, Eq)]
pub enum SessionEvent {
    /// The session is to begin.
    Start,
    ConnectOk,
    ConnectFailed,
    SendOk,
    SendFailed,
    /// The cancellation signal was received.
    Cancel,
    /// A text frame arrived.
    Frame(String),
    /// The inbound stream ended or failed.
    StreamEnded,
    CloseOk,
    CloseFailed,
}

impl View for SessionEvent {
    type V = InputView;

    /// The input that an event stands for: a frame stands for its
    /// classification.
    open spec fn view(&self) -> InputView {
        match self {
            SessionEvent::Start => InputView::Start,
            SessionEvent::ConnectOk => InputView::ConnectOk,
            SessionEvent::ConnectFailed => InputView::ConnectFailed,
            SessionEvent::SendOk => InputView::SendOk,
            SessionEvent::SendFailed => InputView::SendFailed,
            SessionEvent::Cancel => InputView::Cancel,
            SessionEvent::Frame(text) => InputView::Message(classify_text_model(text@)),
            SessionEvent::StreamEnded => InputView::StreamEnded,
            SessionEvent::CloseOk => InputView::CloseOk,
            SessionEvent::CloseFailed => InputView::CloseFailed,
        }
    }
}

/// One subscription session: its request and where it stands.
#[derive(Debug)]
pub struct Session {
    request: SubscriptionRequest,
    progress: Progress,
}

/// A step without prices or notice.
fn plain_step(directive: Directive) -> (step: Step)
    ensures
        step@ == quiet(directive@),
{
    let step = Step { prices: Vec::new(), notice: None, directive };
    assert(step@.prices =~= Seq::empty());
    step
}

/// A step without prices that passes one notice on.
fn noted_step(notice: Notice, directive: Directive) -> (step: Step)
    ensures
        step@ == noted(notice@, directive@),
{
    let step = Step { prices: Vec::new(), notice: Some(notice), directive };
    assert(step@.prices =~= Seq::empty());
    step
}

/// The closing prices of the candles, in order.
fn closing_prices(message: &ClassifiedMessage) -> (prices: Vec<String>)
    ensures
        texts(prices@) == message_prices(message@),
{
    let mut prices: Vec<String> = Vec::new();
    match message {
        ClassifiedMessage::OhlcSnapshot { entries } => {
            let mut i: usize = 0;
            while i < entries.len()
                invariant
                    0 <= i <= entries.len(),
                    prices@.len() == i,
                    forall|j: int| 0 <= j < i ==> (#[trigger] prices@[j])@ == entries@[j].close@,
                decreases entries.len() - i,
            {
                prices.push(entries[i].close.clone());
                i += 1;
            }
        },
        ClassifiedMessage::OhlcUpdate { entry } => {
            prices.push(entry.close.clone());
        },
        _ => {},
    }
    prices
}

impl Session {
    #[verifier::type_invariant]
    spec fn inv(&self) -> bool {
        self.progress.wf()
    }

    /// The request that the session subscribes with.
    pub closed spec fn request(&self) -> RequestView {
        self.request@
    }

    /// Where the session stands.
    pub closed spec fn progress(&self) -> Progress {
        self.progress
    }

    /// A session for `request` that has not started.
    pub fn new(request: SubscriptionRequest) -> (session: Session)
        ensures
            session.request() == request@,
            session.progress() == Progress::initial(),
    {
        Session {
            request,
            progress: Progress { awaiting: Awaiting::Start, subscribed: false, outcome: Ok(()) },
        }
    }

    /// The lifecycle state. Every session is well-formed.
    pub fn state(&self) -> (state: SessionState)
        ensures
            state == self.progress().state(),
            self.progress().wf(),
    {
        proof {
            use_type_invariant(self);
        }
        match self.progress.awaiting {
            Awaiting::Start | Awaiting::ConnectResult => SessionState::Idle,
            Awaiting::SendResult => SessionState::Connecting,
            Awaiting::Traffic => if self.progress.subscribed {
                SessionState::Subscribed
            } else {
                SessionState::Connecting
            },
            Awaiting::CloseResult => SessionState::Stopping,
            Awaiting::Nothing => SessionState::Stopped,
        }
    }

    /// What the session waits for.
    pub fn awaiting(&self) -> (awaiting: Awaiting)
        ensures
            awaiting == self.progress().awaiting,
    {
        self.progress.awaiting
    }

    /// The outcome that the terminal report carries. It is final once the
    /// session has stopped.
    pub fn outcome(&self) -> (outcome: Result<(), SessionError>)
        ensures
            outcome == self.progress().outcome,
    {
        self.progress.outcome
    }

    /// Takes one classified frame, as [`on_message_model`] says.
    pub fn on_message(&mut self, classified: Result<ClassifiedMessage, ParseError>) -> (step: Step)
        ensures
            (final(self).progress(), step@) == on_message_model(
                old(self).progress(),
                classified_view(classified),
            ),
            final(self).request() == old(self).request(),
            final(self).progress().wf(),
    {
        proof {
            use_type_invariant(&*self);
        }
        if !matches!(self.progress.awaiting, Awaiting::Traffic) {
            return plain_step(Directive::Ignore);
        }
        match classified {
            Ok(ClassifiedMessage::AckSuccess) => {
                self.progress.subscribed = true;
                plain_step(Directive::Await)
            },
            Ok(ClassifiedMessage::AckFailure { reason }) => {
                self.progress.awaiting = Awaiting::CloseResult;
                self.progress.outcome = Err(SessionError::SubscriptionRejected);
                noted_step(Notice::Rejected { reason }, Directive::Close)
            },
            Ok(message) => {
                let prices = if self.progress.subscribed {
                    closing_prices(&message)
                } else {
                    Vec::new()
                };
                let step = Step { prices, notice: None, directive: Directive::Await };
                assert(!self.progress.subscribed ==> step@.prices =~= Seq::empty());
                step
            },
            Err(error) => noted_step(Notice::Dropped(error), Directive::Await),
        }
    }

    /// Takes one event, as [`react`] says: the progress moves on and the step
    /// names the prices to deliver and the work to do next. Where the symbol
    /// pair needs no escape, the subscribe frame holds it unchanged between
    /// double quotes.
    pub fn step(&mut self, event: SessionEvent) -> (step: Step)
        ensures
            (final(self).progress(), step@) == react(
                old(self).progress(),
                old(self).request(),
                event@,
            ),
            final(self).request() == old(self).request(),
            final(self).progress().wf(),
            (step@.directive matches DirectiveView::Subscribe { frame } ==> (is_plain(
                old(self).request().symbol,
            ) ==> frame == subscribe_text_with(
                seq!['"'] + old(self).request().symbol + seq!['"'],
                old(self).request().interval,
            ))),
    {
        proof {
            use_type_invariant(&*self);
        }
        match (self.progress.awaiting, event) {
            (Awaiting::Start, SessionEvent::Start) => {
                self.progress.awaiting = Awaiting::ConnectResult;
                plain_step(Directive::Connect)
            },
            (Awaiting::ConnectResult, SessionEvent::ConnectOk) => {
                self.progress.awaiting = Awaiting::SendResult;
                plain_step(Directive::Subscribe { frame: self.request.to_frame() })
            },
            (Awaiting::ConnectResult, SessionEvent::ConnectFailed) => {
                self.progress.awaiting = Awaiting::Nothing;
                self.progress.outcome = Err(SessionError::ConnectFailed);
                plain_step(Directive::Report { outcome: Err(SessionError::ConnectFailed) })
            },
            (Awaiting::SendResult, SessionEvent::SendOk) => {
                self.progress.awaiting = Awaiting::Traffic;
                plain_step(Directive::Await)
            },
            (Awaiting::SendResult, SessionEvent::SendFailed) => {
                self.progress.awaiting = Awaiting::Traffic;
                noted_step(Notice::Failure(SessionError::SubscribeFailed), Directive::Await)
            },
            (Awaiting::Traffic, SessionEvent::Cancel) => {
                self.progress.awaiting = Awaiting::CloseResult;
                plain_step(Directive::Close)
            },
            (Awaiting::Traffic, SessionEvent::StreamEnded) => {
                self.progress.awaiting = Awaiting::CloseResult;
                self.progress.outcome = Err(SessionError::RemoteClosed);
                plain_step(Directive::Close)
            },
            (Awaiting::Traffic, SessionEvent::Frame(text)) => {
                let classified = classify(text.as_str());
                self.on_message(classified)
            },
            (Awaiting::CloseResult, SessionEvent::CloseOk) => {
                self.progress.awaiting = Awaiting::Nothing;
                plain_step(Directive::Report { outcome: self.progress.outcome })
            },
            (Awaiting::CloseResult, SessionEvent::CloseFailed) => {
                self.progress.awaiting = Awaiting::Nothing;
                noted_step(
                    Notice::Failure(SessionError::CloseFailed),
                    Directive::Report { outcome: self.progress.outcome },
                )
            },
            _ => plain_step(Directive::Ignore),
        }
    }
}

} // verus!
