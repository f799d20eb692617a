//! Whole runs of a session, and what holds of every run.

use vstd::prelude::*;
use crate::message::{CandleView, MessageView, ParseError};
use crate::request::RequestView;
use crate::session::{
    closes, noted, quiet, react, Awaiting, DirectiveView, InputView, NoticeView, Progress,
    SessionError, SessionState, StepView,
};

verus! {

/// The progress after a sequence of inputs, and the steps taken on the way.
pub open spec fn run(p: Progress, request: RequestView, inputs: Seq<InputView>) -> (
    Progress,
    Seq<StepView>,
)
    decreases inputs.len(),
{
    if inputs.len() == 0 {
        (p, Seq::empty())
    } else {
        let (before, steps) = run(p, request, inputs.drop_last());
        let (after, step) = react(before, request, inputs.last());
        (after, steps.push(step))
    }
}

/// How many of the steps direct a terminal report.
pub open spec fn reports(steps: Seq<StepView>) -> nat
    decreases steps.len(),
{
    if steps.len() == 0 {
        0
    } else {
        reports(steps.drop_last()) + if steps.last().directive is Report {
            1nat
        } else {
            0nat
        }
    }
}

/// How many of the steps direct a close of the transport.
pub open spec fn closings(steps: Seq<StepView>) -> nat
    decreases steps.len(),
{
    if steps.len() == 0 {
        0
    } else {
        closings(steps.drop_last()) + if steps.last().directive is Close {
            1nat
        } else {
            0nat
        }
    }
}

/// All the prices that the steps deliver, in the order of delivery.
pub open spec fn delivered(steps: Seq<StepView>) -> Seq<Seq<char>>
    decreases steps.len(),
{
    if steps.len() == 0 {
        Seq::empty()
    } else {
        delivered(steps.drop_last()) + steps.last().prices
    }
}

/// What the counts of a run from the start are, by what the session waits for.
spec fn accounted(p: Progress, steps: Seq<StepView>) -> bool {
    &&& p.wf()
    &&& match p.awaiting {
        Awaiting::CloseResult => reports(steps) == 0 && closings(steps) == 1,
        Awaiting::Nothing => {
            &&& reports(steps) == 1
            &&& closings(steps) == if p.outcome == Err::<(), SessionError>(
                SessionError::ConnectFailed,
            ) {
                0nat
            } else {
                1nat
            }
        },
        _ => reports(steps) == 0 && closings(steps) == 0,
    }
    &&& p.outcome == Err::<(), SessionError>(SessionError::ConnectFailed) ==> p.awaiting
        == Awaiting::Nothing
}

/// Every run from the start is accounted for, by induction on its length.
proof fn lemma_run_accounted(request: RequestView, inputs: Seq<InputView>)
    ensures
        ({
            let (p, steps) = run(Progress::initial(), request, inputs);
            accounted(p, steps)
        }),
    decreases inputs.len(),
{
    if inputs.len() > 0 {
        lemma_run_accounted(request, inputs.drop_last());
        let (before, steps) = run(Progress::initial(), request, inputs.drop_last());
        let step = react(before, request, inputs.last()).1;
        assert(steps.push(step).drop_last() =~= steps);
    }
}

/// One transition keeps a well-formed progress well-formed.
pub proof fn lemma_react_keeps_wf(p: Progress, request: RequestView, input: InputView)
    requires
        p.wf(),
    ensures
        react(p, request, input).0.wf(),
{
}

/// Exactly one terminal report: a run from the start has directed one report
/// if the session has stopped, and none if it has not.
pub proof fn lemma_one_report(request: RequestView, inputs: Seq<InputView>)
    ensures
        ({
            let (p, steps) = run(Progress::initial(), request, inputs);
            reports(steps) == if p.state() == SessionState::Stopped {
                1nat
            } else {
                0nat
            }
        }),
{
    lemma_run_accounted(request, inputs);
}

/// The transport is closed at most once, and it has been closed before the
/// report whenever it was opened: a stopped session has directed one close,
/// unless the connection failed, and a stopping session has directed one.
pub proof fn lemma_one_close(request: RequestView, inputs: Seq<InputView>)
    ensures
        ({
            let (p, steps) = run(Progress::initial(), request, inputs);
            &&& closings(steps) <= 1
            &&& p.state() == SessionState::Stopping ==> closings(steps) == 1
            &&& p.state() == SessionState::Stopped ==> (closings(steps) == 1 <==> p.outcome
                != Err::<(), SessionError>(SessionError::ConnectFailed))
        }),
{
    lemma_run_accounted(request, inputs);
}

/// Only three outcomes besides success end a session: a refused connection,
/// a rejected subscription and a stream that the peer ended.
pub proof fn lemma_outcomes(request: RequestView, inputs: Seq<InputView>)
    ensures
        ({
            let p = run(Progress::initial(), request, inputs).0;
            ||| p.outcome is Ok
            ||| p.outcome == Err::<(), SessionError>(SessionError::ConnectFailed)
            ||| p.outcome == Err::<(), SessionError>(SessionError::SubscriptionRejected)
            ||| p.outcome == Err::<(), SessionError>(SessionError::RemoteClosed)
        }),
    decreases inputs.len(),
{
    if inputs.len() > 0 {
        lemma_outcomes(request, inputs.drop_last());
    }
}

/// A stopped session stays as it is: every further event is ignored.
pub proof fn lemma_stopped_is_final(p: Progress, request: RequestView, input: InputView)
    requires
        p.state() == SessionState::Stopped,
    ensures
        react(p, request, input) == (p, quiet(DirectiveView::Ignore)),
{
}

/// Cancellation during the race for traffic stops the session without
/// another frame: the next directive is the close, and the answer to the
/// close, whichever it is, brings the report of a clean stop. It holds
/// whether or not the subscription was ever acknowledged.
pub proof fn lemma_cancel_stops(p: Progress, request: RequestView, close_failed: bool)
    requires
        p.wf(),
        p.awaiting == Awaiting::Traffic,
    ensures
        ({
            let (stopping, first) = react(p, request, InputView::Cancel);
            let answer = if close_failed {
                InputView::CloseFailed
            } else {
                InputView::CloseOk
            };
            let (stopped, second) = react(stopping, request, answer);
            &&& first == quiet(DirectiveView::Close)
            &&& stopping.state() == SessionState::Stopping
            &&& stopping.subscribed == p.subscribed
            &&& second.directive == DirectiveView::Report { outcome: Ok(()) }
            &&& second.prices.len() == 0
            &&& stopped.state() == SessionState::Stopped
            &&& closings(seq![first, second]) == 1
        }),
{
    let (stopping, first) = react(p, request, InputView::Cancel);
    let answer = if close_failed {
        InputView::CloseFailed
    } else {
        InputView::CloseOk
    };
    let (stopped, second) = react(stopping, request, answer);
    let both = seq![first, second];
    assert(both.drop_last() =~= seq![first]);
    assert(seq![first].drop_last() =~= Seq::<StepView>::empty());
    assert(closings(Seq::<StepView>::empty()) == 0);
    assert(closings(seq![first]) == 1);
}

/// Prices reach the sink only in state `Subscribed`.
pub proof fn lemma_prices_need_subscription(p: Progress, request: RequestView, input: InputView)
    requires
        react(p, request, input).1.prices.len() > 0,
    ensures
        p.state() == SessionState::Subscribed,
{
}

/// Only a successful acknowledgement, taken during the race for traffic,
/// makes a session subscribed.
pub proof fn lemma_subscribed_by_ack(p: Progress, request: RequestView, input: InputView)
    requires
        !p.subscribed,
        react(p, request, input).0.subscribed,
    ensures
        p.awaiting == Awaiting::Traffic,
        input == InputView::Message(Ok(MessageView::AckSuccess)),
{
}

/// A frame that cannot be classified is dropped: no price is delivered, the
/// progress is unchanged, and the race goes on.
pub proof fn lemma_unreadable_frame_dropped(p: Progress, request: RequestView, error: ParseError)
    requires
        p.awaiting == Awaiting::Traffic,
    ensures
        react(p, request, InputView::Message(Err(error))) == (
            p,
            noted(NoticeView::Dropped(error), DirectiveView::Await),
        ),
{
}

/// After an acknowledgement, a snapshot of N candles delivers exactly its N
/// closing prices, in array order, and a following update delivers its price
/// after them.
pub proof fn lemma_snapshot_then_update(
    p: Progress,
    request: RequestView,
    entries: Seq<CandleView>,
    entry: CandleView,
)
    requires
        p.wf(),
        p.awaiting == Awaiting::Traffic,
    ensures
        ({
            let inputs = seq![
                InputView::Message(Ok(MessageView::AckSuccess)),
                InputView::Message(Ok(MessageView::OhlcSnapshot { entries })),
                InputView::Message(Ok(MessageView::OhlcUpdate { entry })),
            ];
            let (after, steps) = run(p, request, inputs);
            &&& after.state() == SessionState::Subscribed
            &&& steps.len() == 3
            &&& steps[0].prices.len() == 0
            &&& steps[1].prices == closes(entries)
            &&& steps[1].prices.len() == entries.len()
            &&& steps[2].prices == seq![entry.close]
            &&& delivered(steps) == closes(entries).push(entry.close)
        }),
{
    let ack = InputView::Message(Ok(MessageView::AckSuccess));
    let snapshot = InputView::Message(Ok(MessageView::OhlcSnapshot { entries }));
    let update = InputView::Message(Ok(MessageView::OhlcUpdate { entry }));
    let inputs = seq![ack, snapshot, update];
    let two = seq![ack, snapshot];
    let one = seq![ack];
    assert(inputs.drop_last() =~= two);
    assert(two.drop_last() =~= one);
    assert(one.drop_last() =~= Seq::<InputView>::empty());
    let s1 = run(p, request, one).1;
    let s2 = run(p, request, two).1;
    let s3 = run(p, request, inputs).1;
    assert(run(p, request, Seq::<InputView>::empty()) == (p, Seq::<StepView>::empty()));
    assert(s3.drop_last() =~= s2);
    assert(s2.drop_last() =~= s1);
    assert(s1.drop_last() =~= Seq::<StepView>::empty());
    assert(delivered(Seq::<StepView>::empty()) =~= Seq::<Seq<char>>::empty());
    assert(delivered(s1) =~= Seq::<Seq<char>>::empty());
    assert(delivered(s2) =~= closes(entries));
}

} // verus!
