use market_pulse::feed::{
    candle_timestamp, feed_step, FeedAction, FeedEvent, FeedState, CANDLE_INTERVAL_MS,
    STEPS_PER_CANDLE,
};

fn run(mut state: FeedState, events: &[FeedEvent]) -> (FeedState, Vec<FeedAction>) {
    let mut actions = Vec::new();
    for e in events {
        let (s, a) = feed_step(state, *e);
        state = s;
        actions.push(a);
    }
    (state, actions)
}

use FeedEvent::{Completed, Failed};

#[test]
fn delivered_candle_cycle() {
    let (state, actions) = run(FeedState::Ready, &[Completed, Completed, Completed, Completed]);
    assert_eq!(state, FeedState::Ready);
    assert_eq!(
        actions,
        vec![
            FeedAction::BuildCandle { steps: 60 },
            FeedAction::Encode,
            FeedAction::Send,
            FeedAction::Sleep { millis: 1000 },
        ]
    );
    assert_eq!(STEPS_PER_CANDLE, 60);
    assert_eq!(CANDLE_INTERVAL_MS, 1000);
}

#[test]
fn encoding_failure_skips_candle_without_pause() {
    let (state, actions) = run(FeedState::Ready, &[Completed, Completed, Failed, Completed]);
    assert_eq!(state, FeedState::Building);
    assert_eq!(
        actions,
        vec![
            FeedAction::BuildCandle { steps: 60 },
            FeedAction::Encode,
            FeedAction::ReportEncodingError,
            FeedAction::BuildCandle { steps: 60 },
        ]
    );
}

#[test]
fn delivery_failure_ends_stream() {
    let (state, actions) = run(FeedState::Sending, &[Failed, Completed, Failed, Completed]);
    assert_eq!(state, FeedState::Closed);
    assert_eq!(
        actions,
        vec![
            FeedAction::ReportDisconnect,
            FeedAction::Stop,
            FeedAction::Stop,
            FeedAction::Stop,
        ]
    );
}

#[test]
fn building_cannot_fail() {
    assert_eq!(
        feed_step(FeedState::Ready, Failed),
        (FeedState::Building, FeedAction::BuildCandle { steps: 60 })
    );
    assert_eq!(feed_step(FeedState::Building, Failed), (FeedState::Encoding, FeedAction::Encode));
}

#[test]
fn timestamp_in_whole_milliseconds() {
    assert_eq!(candle_timestamp(Some((1, 500_000_000))), 1500);
    assert_eq!(candle_timestamp(Some((0, 999_999))), 0);
    assert_eq!(candle_timestamp(Some((1_700_000_000, 999_999_999))), 1_700_000_000_999);
    assert_eq!(candle_timestamp(Some((u64::MAX, 0))), u64::MAX as u128 * 1000);
}

#[test]
fn timestamp_before_epoch_is_zero() {
    assert_eq!(candle_timestamp(None), 0);
}
