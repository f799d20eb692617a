use opencharting::message::{Candle, ClassifiedMessage, ParseError};
use opencharting::request::SubscriptionRequest;
use opencharting::session::{
    Awaiting, Directive, Notice, Session, SessionError, SessionEvent, SessionState, Step,
};

const ACK: &str = "{\"method\":\"subscribe\",\"success\":true}";
const SNAPSHOT: &str = "{\"channel\":\"ohlc\",\"type\":\"snapshot\",\"data\":[{\"close\":43250.5},{\"close\":43251},{\"close\":43249.9}]}";
const UPDATE: &str = "{\"channel\":\"ohlc\",\"type\":\"update\",\"data\":[{\"close\":43260.1}]}";
const FRAME: &str =
    "{\"method\":\"subscribe\",\"params\":{\"channel\":\"ohlc\",\"symbol\":[\"BTC/USD\"],\"interval\":1}}";

fn fresh() -> Session {
    Session::new(SubscriptionRequest::new("BTC", "USD", 1))
}

fn frame(text: &str) -> SessionEvent {
    SessionEvent::Frame(text.to_string())
}

fn quiet(directive: Directive) -> Step {
    Step { prices: vec![], notice: None, directive }
}

fn noted(notice: Notice, directive: Directive) -> Step {
    Step { prices: vec![], notice: Some(notice), directive }
}

fn prices(list: &[&str]) -> Step {
    Step {
        prices: list.iter().map(|p| p.to_string()).collect(),
        notice: None,
        directive: Directive::Await,
    }
}

/// A session that has connected and sent its request, and waits for traffic.
fn racing() -> Session {
    let mut session = fresh();
    assert_eq!(session.step(SessionEvent::Start), quiet(Directive::Connect));
    assert_eq!(
        session.step(SessionEvent::ConnectOk),
        quiet(Directive::Subscribe { frame: FRAME.to_string() })
    );
    assert_eq!(session.step(SessionEvent::SendOk), quiet(Directive::Await));
    session
}

fn all_events() -> Vec<SessionEvent> {
    vec![
        SessionEvent::Start,
        SessionEvent::ConnectOk,
        SessionEvent::ConnectFailed,
        SessionEvent::SendOk,
        SessionEvent::SendFailed,
        SessionEvent::Cancel,
        frame(ACK),
        frame(UPDATE),
        frame("garbage"),
        SessionEvent::StreamEnded,
        SessionEvent::CloseOk,
        SessionEvent::CloseFailed,
    ]
}

#[test]
fn new_session_is_idle() {
    let session = fresh();
    assert_eq!(session.state(), SessionState::Idle);
    assert_eq!(session.awaiting(), Awaiting::Start);
    assert_eq!(session.outcome(), Ok(()));
}

#[test]
fn states_follow_the_lifecycle() {
    let mut session = fresh();
    session.step(SessionEvent::Start);
    assert_eq!(session.state(), SessionState::Idle);
    assert_eq!(session.awaiting(), Awaiting::ConnectResult);
    session.step(SessionEvent::ConnectOk);
    assert_eq!(session.state(), SessionState::Connecting);
    assert_eq!(session.awaiting(), Awaiting::SendResult);
    session.step(SessionEvent::SendOk);
    assert_eq!(session.state(), SessionState::Connecting);
    assert_eq!(session.awaiting(), Awaiting::Traffic);
    session.step(frame(ACK));
    assert_eq!(session.state(), SessionState::Subscribed);
    assert_eq!(session.awaiting(), Awaiting::Traffic);
    session.step(SessionEvent::Cancel);
    assert_eq!(session.state(), SessionState::Stopping);
    assert_eq!(session.awaiting(), Awaiting::CloseResult);
    session.step(SessionEvent::CloseOk);
    assert_eq!(session.state(), SessionState::Stopped);
    assert_eq!(session.awaiting(), Awaiting::Nothing);
    assert_eq!(session.outcome(), Ok(()));
}

#[test]
fn snapshot_prices_come_in_order_before_the_update() {
    let mut session = racing();
    assert_eq!(session.step(frame(ACK)), quiet(Directive::Await));
    assert_eq!(session.state(), SessionState::Subscribed);
    let snapshot = session.step(frame(SNAPSHOT));
    assert_eq!(snapshot, prices(&["43250.5", "43251", "43249.9"]));
    assert_eq!(snapshot.prices.len(), 3);
    assert_eq!(session.step(frame(UPDATE)), prices(&["43260.1"]));
    assert_eq!(session.state(), SessionState::Subscribed);
}

#[test]
fn cancel_while_waiting_closes_once_and_reports() {
    let mut session = racing();
    session.step(frame(ACK));
    assert_eq!(session.step(SessionEvent::Cancel), quiet(Directive::Close));
    assert_eq!(session.state(), SessionState::Stopping);
    assert_eq!(
        session.step(SessionEvent::CloseOk),
        quiet(Directive::Report { outcome: Ok(()) })
    );
    assert_eq!(session.state(), SessionState::Stopped);
}

#[test]
fn cancel_without_acknowledgement_still_stops() {
    let mut session = racing();
    assert_eq!(session.state(), SessionState::Connecting);
    assert_eq!(session.step(SessionEvent::Cancel), quiet(Directive::Close));
    assert_eq!(
        session.step(SessionEvent::CloseOk),
        quiet(Directive::Report { outcome: Ok(()) })
    );
    assert_eq!(session.state(), SessionState::Stopped);
    assert_eq!(session.outcome(), Ok(()));
}

#[test]
fn frame_without_close_is_dropped_and_the_session_goes_on() {
    let mut session = racing();
    session.step(frame(ACK));
    let dropped = session.step(frame("{\"channel\":\"ohlc\",\"type\":\"update\",\"data\":[{}]}"));
    assert_eq!(
        dropped,
        noted(Notice::Dropped(ParseError::MissingField), Directive::Await)
    );
    assert!(dropped.prices.is_empty());
    assert_eq!(session.state(), SessionState::Subscribed);
    assert_eq!(session.step(frame(UPDATE)), prices(&["43260.1"]));
}

#[test]
fn malformed_frame_is_dropped_and_the_session_goes_on() {
    let mut session = racing();
    assert_eq!(
        session.step(frame("{\"success\":")),
        noted(Notice::Dropped(ParseError::Malformed), Directive::Await)
    );
    assert_eq!(session.state(), SessionState::Connecting);
    assert_eq!(session.step(frame(ACK)), quiet(Directive::Await));
    assert_eq!(session.state(), SessionState::Subscribed);
    assert_eq!(
        session.step(frame("")),
        noted(Notice::Dropped(ParseError::Malformed), Directive::Await)
    );
    assert_eq!(session.step(frame(UPDATE)), prices(&["43260.1"]));
}

#[test]
fn unrecognized_frames_change_nothing() {
    let mut session = racing();
    assert_eq!(session.step(frame("{\"channel\":\"heartbeat\"}")), quiet(Directive::Await));
    assert_eq!(session.state(), SessionState::Connecting);
    session.step(frame(ACK));
    assert_eq!(session.step(frame("{\"channel\":\"heartbeat\"}")), quiet(Directive::Await));
    assert_eq!(session.state(), SessionState::Subscribed);
}

#[test]
fn prices_before_the_acknowledgement_are_not_delivered() {
    let mut session = racing();
    assert_eq!(session.step(frame(SNAPSHOT)), quiet(Directive::Await));
    assert_eq!(session.step(frame(UPDATE)), quiet(Directive::Await));
    assert_eq!(session.state(), SessionState::Connecting);
    session.step(frame(ACK));
    assert_eq!(session.step(frame(UPDATE)), prices(&["43260.1"]));
}

#[test]
fn a_second_acknowledgement_changes_nothing() {
    let mut session = racing();
    session.step(frame(ACK));
    assert_eq!(session.step(frame(ACK)), quiet(Directive::Await));
    assert_eq!(session.state(), SessionState::Subscribed);
}

#[test]
fn refused_connection_stops_without_a_close() {
    let mut session = fresh();
    session.step(SessionEvent::Start);
    assert_eq!(
        session.step(SessionEvent::ConnectFailed),
        quiet(Directive::Report { outcome: Err(SessionError::ConnectFailed) })
    );
    assert_eq!(session.state(), SessionState::Stopped);
    assert_eq!(session.outcome(), Err(SessionError::ConnectFailed));
}

#[test]
fn failed_send_is_noted_and_the_session_waits_on() {
    let mut session = fresh();
    session.step(SessionEvent::Start);
    session.step(SessionEvent::ConnectOk);
    assert_eq!(
        session.step(SessionEvent::SendFailed),
        noted(Notice::Failure(SessionError::SubscribeFailed), Directive::Await)
    );
    assert_eq!(session.state(), SessionState::Connecting);
    assert_eq!(session.awaiting(), Awaiting::Traffic);
    assert_eq!(session.step(frame(ACK)), quiet(Directive::Await));
    assert_eq!(session.step(frame(UPDATE)), prices(&["43260.1"]));
    assert_eq!(session.step(SessionEvent::Cancel), quiet(Directive::Close));
    assert_eq!(
        session.step(SessionEvent::CloseOk),
        quiet(Directive::Report { outcome: Ok(()) })
    );
}

#[test]
fn rejected_subscription_stops_the_session() {
    let mut session = racing();
    assert_eq!(
        session.step(frame("{\"success\":false,\"error\":\"Currency pair not supported\"}")),
        noted(
            Notice::Rejected { reason: "Currency pair not supported".to_string() },
            Directive::Close
        )
    );
    assert_eq!(session.state(), SessionState::Stopping);
    assert_eq!(
        session.step(SessionEvent::CloseOk),
        quiet(Directive::Report { outcome: Err(SessionError::SubscriptionRejected) })
    );
    assert_eq!(session.state(), SessionState::Stopped);
    assert_eq!(session.outcome(), Err(SessionError::SubscriptionRejected));
}

#[test]
fn stream_end_stops_with_remote_closed() {
    let mut session = racing();
    session.step(frame(ACK));
    assert_eq!(session.step(SessionEvent::StreamEnded), quiet(Directive::Close));
    assert_eq!(session.state(), SessionState::Stopping);
    assert_eq!(
        session.step(SessionEvent::CloseOk),
        quiet(Directive::Report { outcome: Err(SessionError::RemoteClosed) })
    );
    assert_eq!(session.outcome(), Err(SessionError::RemoteClosed));
}

#[test]
fn failed_close_is_noted_and_keeps_the_outcome() {
    let mut session = racing();
    session.step(SessionEvent::Cancel);
    assert_eq!(
        session.step(SessionEvent::CloseFailed),
        noted(
            Notice::Failure(SessionError::CloseFailed),
            Directive::Report { outcome: Ok(()) }
        )
    );
    assert_eq!(session.state(), SessionState::Stopped);

    let mut session = racing();
    session.step(SessionEvent::StreamEnded);
    assert_eq!(
        session.step(SessionEvent::CloseFailed),
        noted(
            Notice::Failure(SessionError::CloseFailed),
            Directive::Report { outcome: Err(SessionError::RemoteClosed) }
        )
    );
}

#[test]
fn frames_in_flight_are_discarded_while_stopping() {
    let mut session = racing();
    session.step(frame(ACK));
    session.step(SessionEvent::Cancel);
    assert_eq!(session.step(frame(UPDATE)), quiet(Directive::Ignore));
    assert_eq!(session.step(SessionEvent::Cancel), quiet(Directive::Ignore));
    assert_eq!(session.step(SessionEvent::StreamEnded), quiet(Directive::Ignore));
    assert_eq!(session.state(), SessionState::Stopping);
    assert_eq!(
        session.step(SessionEvent::CloseOk),
        quiet(Directive::Report { outcome: Ok(()) })
    );
}

#[test]
fn a_stopped_session_ignores_every_event() {
    let mut session = racing();
    session.step(SessionEvent::Cancel);
    session.step(SessionEvent::CloseOk);
    for event in all_events() {
        assert_eq!(session.step(event), quiet(Directive::Ignore));
        assert_eq!(session.state(), SessionState::Stopped);
        assert_eq!(session.outcome(), Ok(()));
    }
}

#[test]
fn events_that_answer_nothing_are_ignored() {
    let mut session = fresh();
    for event in all_events() {
        if event != SessionEvent::Start {
            assert_eq!(session.step(event), quiet(Directive::Ignore));
            assert_eq!(session.awaiting(), Awaiting::Start);
        }
    }
    session.step(SessionEvent::Start);
    for event in all_events() {
        if event != SessionEvent::ConnectOk && event != SessionEvent::ConnectFailed {
            assert_eq!(session.step(event), quiet(Directive::Ignore));
            assert_eq!(session.awaiting(), Awaiting::ConnectResult);
        }
    }
    session.step(SessionEvent::ConnectOk);
    for event in all_events() {
        if event != SessionEvent::SendOk && event != SessionEvent::SendFailed {
            assert_eq!(session.step(event), quiet(Directive::Ignore));
            assert_eq!(session.awaiting(), Awaiting::SendResult);
        }
    }
    session.step(SessionEvent::SendOk);
    for event in [
        SessionEvent::Start,
        SessionEvent::ConnectOk,
        SessionEvent::ConnectFailed,
        SessionEvent::SendOk,
        SessionEvent::SendFailed,
        SessionEvent::CloseOk,
        SessionEvent::CloseFailed,
    ] {
        assert_eq!(session.step(event), quiet(Directive::Ignore));
        assert_eq!(session.awaiting(), Awaiting::Traffic);
    }
}

#[test]
fn every_run_reports_once_and_closes_at_most_once() {
    let scripts: Vec<Vec<SessionEvent>> = vec![
        vec![SessionEvent::Start, SessionEvent::ConnectFailed, SessionEvent::Cancel, SessionEvent::CloseOk],
        vec![
            SessionEvent::Start,
            SessionEvent::ConnectOk,
            SessionEvent::SendFailed,
            frame(SNAPSHOT),
            frame(ACK),
            frame(SNAPSHOT),
            SessionEvent::StreamEnded,
            SessionEvent::Cancel,
            SessionEvent::CloseFailed,
            SessionEvent::CloseOk,
            SessionEvent::Start,
        ],
        vec![
            SessionEvent::Cancel,
            SessionEvent::Start,
            SessionEvent::Start,
            SessionEvent::ConnectOk,
            SessionEvent::ConnectOk,
            SessionEvent::SendOk,
            frame("{\"success\":false}"),
            frame(ACK),
            SessionEvent::Cancel,
            SessionEvent::CloseOk,
            SessionEvent::CloseOk,
        ],
    ];
    let closes = [0, 1, 1];
    for (script, expected_closes) in scripts.into_iter().zip(closes) {
        let mut session = fresh();
        let mut reports = 0;
        let mut closings = 0;
        for event in script {
            match session.step(event).directive {
                Directive::Report { .. } => reports += 1,
                Directive::Close => closings += 1,
                _ => {}
            }
        }
        assert_eq!(session.state(), SessionState::Stopped);
        assert_eq!(reports, 1);
        assert_eq!(closings, expected_closes);
    }
}

#[test]
fn classified_messages_can_be_handed_in_directly() {
    let mut session = racing();
    let update = ClassifiedMessage::OhlcUpdate { entry: Candle { close: "7.5".to_string() } };
    let snapshot = ClassifiedMessage::OhlcSnapshot {
        entries: vec![Candle { close: "1".to_string() }, Candle { close: "2".to_string() }],
    };
    assert_eq!(session.on_message(Ok(update.clone())), quiet(Directive::Await));
    assert_eq!(session.on_message(Ok(ClassifiedMessage::AckSuccess)), quiet(Directive::Await));
    assert_eq!(session.on_message(Ok(snapshot)), prices(&["1", "2"]));
    assert_eq!(session.on_message(Ok(update)), prices(&["7.5"]));
    assert_eq!(
        session.on_message(Ok(ClassifiedMessage::OhlcSnapshot { entries: vec![] })),
        quiet(Directive::Await)
    );
    assert_eq!(session.on_message(Ok(ClassifiedMessage::Unrecognized)), quiet(Directive::Await));
    assert_eq!(
        session.on_message(Err(ParseError::MissingField)),
        noted(Notice::Dropped(ParseError::MissingField), Directive::Await)
    );
    assert_eq!(
        session.on_message(Ok(ClassifiedMessage::AckFailure { reason: "late".to_string() })),
        noted(Notice::Rejected { reason: "late".to_string() }, Directive::Close)
    );
    assert_eq!(session.on_message(Ok(ClassifiedMessage::AckSuccess)), quiet(Directive::Ignore));
    assert_eq!(session.state(), SessionState::Stopping);
}

#[test]
fn messages_outside_the_race_are_ignored() {
    let mut session = fresh();
    assert_eq!(session.on_message(Ok(ClassifiedMessage::AckSuccess)), quiet(Directive::Ignore));
    assert_eq!(session.state(), SessionState::Idle);
    session.step(SessionEvent::Start);
    session.step(SessionEvent::ConnectOk);
    assert_eq!(session.on_message(Ok(ClassifiedMessage::AckSuccess)), quiet(Directive::Ignore));
    assert_eq!(session.awaiting(), Awaiting::SendResult);
}

#[test]
fn subscribe_directive_carries_the_request_frame() {
    let mut session = Session::new(SubscriptionRequest::new("ETH", "EUR", 60));
    session.step(SessionEvent::Start);
    assert_eq!(
        session.step(SessionEvent::ConnectOk),
        quiet(Directive::Subscribe {
            frame: "{\"method\":\"subscribe\",\"params\":{\"channel\":\"ohlc\",\"symbol\":[\"ETH/EUR\"],\"interval\":60}}"
                .to_string()
        })
    );
}
