//! The protocol of a stream of simulated candlesticks: which piece of outside
//! work comes next, and what happens when encoding or delivery fails.
use vstd::prelude::*;

verus! {

/// Number of price steps aggregated into one candle.
pub const STEPS_PER_CANDLE: u32 = 60;

/// Pause after a delivered candle, in milliseconds.
pub const CANDLE_INTERVAL_MS: u64 = 1000;

/// Where the stream stands.
#[derive(Clone, Copy, Debug, PartialEq, Eq, Structural)]
pub enum FeedState {
    /// About to start the next candle (also the state a new stream starts in).
    Ready,
    /// A candle is being simulated.
    Building,
    /// The candle is being encoded for the client.
    Encoding,
    /// The encoded candle is being sent to the client.
    Sending,
    /// The client is gone; the stream has ended.
    Closed,
}

/// The outcome of the work that the previous action asked for.
#[derive(Clone, Copy, Debug, PartialEq, Eq, Structural)]
pub enum FeedEvent {
    /// The work was done.
    Completed,
    /// The work failed (only encoding and sending can fail).
    Failed,
}

/// The work that the stream asks for next.
#[derive(Clone, Copy, Debug, PartialEq, Eq, Structural)]
pub enum FeedAction {
    /// Read the clock and simulate a candle of `steps` price steps.
    BuildCandle { steps: u32 },
    /// Encode the candle.
    Encode,
    /// Send the encoded candle to the client.
    Send,
    /// Report that the candle could not be encoded; it is dropped.
    ReportEncodingError,
    /// Pause before the next candle.
    Sleep { millis: u64 },
    /// Report that the client disconnected.
    ReportDisconnect,
    /// Do nothing more: the stream has ended.
    Stop,
}

/// One step of the stream: the next state and action for an event in a state.
pub open spec fn feed_transition(state: FeedState, event: FeedEvent) -> (FeedState, FeedAction) {
    match state {
        FeedState::Ready => (FeedState::Building, FeedAction::BuildCandle { steps: STEPS_PER_CANDLE }),
        FeedState::Building => (FeedState::Encoding, FeedAction::Encode),
        FeedState::Encoding => match event {
            FeedEvent::Completed => (FeedState::Sending, FeedAction::Send),
            FeedEvent::Failed => (FeedState::Ready, FeedAction::ReportEncodingError),
        },
        FeedState::Sending => match event {
            FeedEvent::Completed => (FeedState::Ready, FeedAction::Sleep { millis: CANDLE_INTERVAL_MS }),
            FeedEvent::Failed => (FeedState::Closed, FeedAction::ReportDisconnect),
        },
        FeedState::Closed => (FeedState::Closed, FeedAction::Stop),
    }
}

/// Decides the stream's next state and action after `event` in `state`.
/// Simulating a candle cannot fail, so in `Ready` and `Building` a `Failed` event
/// counts as `Completed`. An encoding failure drops the candle and starts the next one
/// at once, without a pause; a delivery failure ends the stream.
pub fn feed_step(state: FeedState, event: FeedEvent) -> (res: (FeedState, FeedAction))
    ensures
        res == feed_transition(state, event),
{
    match state {
        FeedState::Ready => (FeedState::Building, FeedAction::BuildCandle { steps: STEPS_PER_CANDLE }),
        FeedState::Building => (FeedState::Encoding, FeedAction::Encode),
        FeedState::Encoding => match event {
            FeedEvent::Completed => (FeedState::Sending, FeedAction::Send),
            FeedEvent::Failed => (FeedState::Ready, FeedAction::ReportEncodingError),
        },
        FeedState::Sending => match event {
            FeedEvent::Completed => (FeedState::Ready, FeedAction::Sleep { millis: CANDLE_INTERVAL_MS }),
            FeedEvent::Failed => (FeedState::Closed, FeedAction::ReportDisconnect),
        },
        FeedState::Closed => (FeedState::Closed, FeedAction::Stop),
    }
}

/// Whole milliseconds in a duration of `secs` seconds and `nanos` nanoseconds.
pub open spec fn whole_millis(secs: u64, nanos: u32) -> int {
    secs * 1000 + nanos / 1_000_000
}

/// The timestamp of a candle in milliseconds since the Unix epoch, given the time
/// elapsed since the epoch as seconds and nanoseconds, or `None` where the clock
/// reads earlier than the epoch, which gives 0.
pub fn candle_timestamp(since_epoch: Option<(u64, u32)>) -> (ms: u128)
    ensures
        since_epoch matches Some((secs, nanos)) ==> ms == whole_millis(secs, nanos),
        since_epoch is None ==> ms == 0,
{
    match since_epoch {
        Some((secs, nanos)) => (secs as u128) * 1000 + ((nanos / 1_000_000) as u128),
        None => 0,
    }
}


/// The state reached and the actions asked for when the events `events` arrive one
/// after another, starting in `state`.
pub open spec fn feed_run(state: FeedState, events: Seq<FeedEvent>) -> (FeedState, Seq<FeedAction>)
    decreases events.len(),
{
    if events.len() == 0 {
        (state, Seq::empty())
    } else {
        let (next, action) = feed_transition(state, events[0]);
        let (last, rest) = feed_run(next, events.drop_first());
        (last, seq![action] + rest)
    }
}

/// A candle timestamp counts the whole milliseconds in the time since the epoch:
/// `ms` milliseconds fit in `secs` seconds and `nanos` nanoseconds, and `ms + 1` do
/// not; for a proper duration (`nanos` under one second) that lies in the second
/// `secs`, from `secs * 1000` up to, not including, `secs * 1000 + 1000`.
pub proof fn lemma_whole_millis(secs: u64, nanos: u32)
    ensures
        ({
            let ms = whole_millis(secs, nanos);
            &&& ms * 1_000_000 <= secs * 1_000_000_000 + nanos
            &&& secs * 1_000_000_000 + nanos < (ms + 1) * 1_000_000
            &&& nanos < 1_000_000_000 ==> secs * 1000 <= ms < secs * 1000 + 1000
        }),
{
    let n = nanos as int;
    let q = n / 1_000_000;
    vstd::arithmetic::div_mod::lemma_fundamental_div_mod(n, 1_000_000);
    assert(q * 1_000_000 <= n < q * 1_000_000 + 1_000_000);
    let ms = whole_millis(secs, nanos);
    assert(ms == secs * 1000 + q);
    assert(ms * 1_000_000 == secs * 1_000_000_000 + q * 1_000_000) by (nonlinear_arith)
        requires ms == secs * 1000 + q;
    if nanos < 1_000_000_000 {
        assert(q < 1000);
    }
}

/// An ended stream stays ended: whatever arrives, it only answers `Stop`.
pub proof fn lemma_closed_is_final(events: Seq<FeedEvent>)
    ensures
        feed_run(FeedState::Closed, events).0 == FeedState::Closed,
        feed_run(FeedState::Closed, events).1 == Seq::new(events.len(), |i: int| FeedAction::Stop),
    decreases events.len(),
{
    if events.len() > 0 {
        lemma_closed_is_final(events.drop_first());
        assert(feed_run(FeedState::Closed, events).1 =~= Seq::new(events.len(), |i: int| FeedAction::Stop));
    }
}

/// A failed delivery ends the stream: the disconnect is reported, and every later
/// event is answered with `Stop`.
pub proof fn lemma_delivery_failure_ends_stream(later: Seq<FeedEvent>)
    ensures
        feed_run(FeedState::Sending, seq![FeedEvent::Failed] + later).0 == FeedState::Closed,
        feed_run(FeedState::Sending, seq![FeedEvent::Failed] + later).1 == seq![FeedAction::ReportDisconnect]
            + Seq::new(later.len(), |i: int| FeedAction::Stop),
{
    let events = seq![FeedEvent::Failed] + later;
    assert(events.drop_first() =~= later);
    lemma_closed_is_final(later);
}

/// A candle is sent only right after it was encoded successfully.
pub proof fn lemma_send_needs_encoding(state: FeedState, event: FeedEvent)
    ensures
        feed_transition(state, event).1 == FeedAction::Send <==> (state == FeedState::Encoding && event
            == FeedEvent::Completed),
{
}

/// The stream pauses only right after a candle was delivered, and always then.
pub proof fn lemma_pause_after_delivery(state: FeedState, event: FeedEvent)
    ensures
        feed_transition(state, event).1 is Sleep <==> (state == FeedState::Sending && event
            == FeedEvent::Completed),
        feed_transition(state, event).1 is Sleep ==> feed_transition(state, event).1 == (FeedAction::Sleep {
            millis: CANDLE_INTERVAL_MS,
        }),
{
}

/// A delivered candle takes exactly one round of work: simulate 60 steps, encode,
/// send, pause one second, and the stream is ready for the next candle.
pub proof fn lemma_candle_cycle()
    ensures
        feed_run(
            FeedState::Ready,
            seq![FeedEvent::Completed, FeedEvent::Completed, FeedEvent::Completed, FeedEvent::Completed],
        ) == (
            FeedState::Ready,
            seq![
                FeedAction::BuildCandle { steps: STEPS_PER_CANDLE },
                FeedAction::Encode,
                FeedAction::Send,
                FeedAction::Sleep { millis: CANDLE_INTERVAL_MS },
            ],
        ),
{
    reveal_with_fuel(feed_run, 5);
    let e = seq![FeedEvent::Completed, FeedEvent::Completed, FeedEvent::Completed, FeedEvent::Completed];
    assert(e.drop_first() =~= seq![FeedEvent::Completed, FeedEvent::Completed, FeedEvent::Completed]);
    assert(e.drop_first().drop_first() =~= seq![FeedEvent::Completed, FeedEvent::Completed]);
    assert(e.drop_first().drop_first().drop_first() =~= seq![FeedEvent::Completed]);
    assert(e.drop_first().drop_first().drop_first().drop_first() =~= Seq::<FeedEvent>::empty());
    assert(feed_run(FeedState::Ready, e).1 =~= seq![
        FeedAction::BuildCandle { steps: STEPS_PER_CANDLE },
        FeedAction::Encode,
        FeedAction::Send,
        FeedAction::Sleep { millis: CANDLE_INTERVAL_MS },
    ]);
}

/// A candle that cannot be encoded is dropped: nothing is sent, there is no pause,
/// and the next event starts the next candle.
pub proof fn lemma_encoding_failure_skips_candle()
    ensures
        feed_run(
            FeedState::Ready,
            seq![FeedEvent::Completed, FeedEvent::Completed, FeedEvent::Failed, FeedEvent::Completed],
        ) == (
            FeedState::Building,
            seq![
                FeedAction::BuildCandle { steps: STEPS_PER_CANDLE },
                FeedAction::Encode,
                FeedAction::ReportEncodingError,
                FeedAction::BuildCandle { steps: STEPS_PER_CANDLE },
            ],
        ),
{
    reveal_with_fuel(feed_run, 5);
    let e = seq![FeedEvent::Completed, FeedEvent::Completed, FeedEvent::Failed, FeedEvent::Completed];
    assert(e.drop_first() =~= seq![FeedEvent::Completed, FeedEvent::Failed, FeedEvent::Completed]);
    assert(e.drop_first().drop_first() =~= seq![FeedEvent::Failed, FeedEvent::Completed]);
    assert(e.drop_first().drop_first().drop_first() =~= seq![FeedEvent::Completed]);
    assert(e.drop_first().drop_first().drop_first().drop_first() =~= Seq::<FeedEvent>::empty());
    assert(feed_run(FeedState::Ready, e).1 =~= seq![
        FeedAction::BuildCandle { steps: STEPS_PER_CANDLE },
        FeedAction::Encode,
        FeedAction::ReportEncodingError,
        FeedAction::BuildCandle { steps: STEPS_PER_CANDLE },
    ]);
}

} // verus!
