use hyperion_adco::brokers::feed::{
    feed_start, feed_step, frame_ticks, text_event, tick_timestamp, FeedAction, FeedEvent, FeedState,
    FeedStep, TickerUpdate, update_ticks,
};

fn step(state: FeedState, action: FeedAction) -> FeedStep {
    FeedStep { state, action }
}

#[test]
fn feed_connects_subscribes_and_streams() {
    let s = feed_start();
    assert_eq!(s, step(FeedState::Disconnected, FeedAction::Connect));
    let s = feed_step(s.state, FeedEvent::Connected);
    assert_eq!(s, step(FeedState::Subscribing, FeedAction::Subscribe));
    let s = feed_step(s.state, FeedEvent::Subscribed);
    assert_eq!(s, step(FeedState::Streaming, FeedAction::Await));
    let s = feed_step(s.state, FeedEvent::PingDue);
    assert_eq!(s, step(FeedState::Streaming, FeedAction::SendPing));
    let s = feed_step(s.state, FeedEvent::PingSent);
    assert_eq!(s, step(FeedState::Streaming, FeedAction::Await));
    let s = feed_step(s.state, FeedEvent::PongText);
    assert_eq!(s, step(FeedState::Streaming, FeedAction::Await));
    let s = feed_step(s.state, FeedEvent::DataText);
    assert_eq!(s, step(FeedState::Streaming, FeedAction::Publish));
    let s = feed_step(s.state, FeedEvent::Published);
    assert_eq!(s, step(FeedState::Streaming, FeedAction::Await));
    let s = feed_step(s.state, FeedEvent::OtherFrame);
    assert_eq!(s, step(FeedState::Streaming, FeedAction::Await));
    let s = feed_step(s.state, FeedEvent::ReceiverGone);
    assert_eq!(s, step(FeedState::Stopped, FeedAction::Stop));
    let s = feed_step(s.state, FeedEvent::Connected);
    assert_eq!(s, step(FeedState::Stopped, FeedAction::Stop));
}

#[test]
fn feed_backs_off_after_early_failures() {
    let s = feed_step(FeedState::Disconnected, FeedEvent::ConnectFailed);
    assert_eq!(s, step(FeedState::Disconnected, FeedAction::Backoff));
    let s = feed_step(s.state, FeedEvent::BackoffElapsed);
    assert_eq!(s, step(FeedState::Disconnected, FeedAction::Connect));
    let s = feed_step(FeedState::Subscribing, FeedEvent::SubscribeFailed);
    assert_eq!(s, step(FeedState::Disconnected, FeedAction::Backoff));
}

#[test]
fn feed_reconnects_at_once_when_stream_is_lost() {
    assert_eq!(
        feed_step(FeedState::Streaming, FeedEvent::Closed),
        step(FeedState::Disconnected, FeedAction::Connect)
    );
    assert_eq!(
        feed_step(FeedState::Streaming, FeedEvent::PingFailed),
        step(FeedState::Disconnected, FeedAction::Connect)
    );
}

#[test]
fn text_frames() {
    assert_eq!(text_event("pong"), FeedEvent::PongText);
    assert_eq!(text_event("Pong"), FeedEvent::DataText);
    assert_eq!(text_event("pong "), FeedEvent::DataText);
    assert_eq!(text_event(""), FeedEvent::DataText);
    assert_eq!(text_event("{\"data\":[]}"), FeedEvent::DataText);
}

#[test]
fn tick_timestamps() {
    assert_eq!(tick_timestamp(Some("1700000000123"), 7), 1_700_000_000_123);
    assert_eq!(tick_timestamp(Some("+42"), 7), 42);
    assert_eq!(tick_timestamp(Some("-42"), 7), -42);
    assert_eq!(tick_timestamp(Some("9223372036854775807"), 7), i64::MAX);
    assert_eq!(tick_timestamp(Some("9223372036854775808"), 7), 7);
    assert_eq!(tick_timestamp(Some("-9223372036854775808"), 7), i64::MIN);
    assert_eq!(tick_timestamp(Some(""), 7), 7);
    assert_eq!(tick_timestamp(Some("-"), 7), 7);
    assert_eq!(tick_timestamp(Some(" 1"), 7), 7);
    assert_eq!(tick_timestamp(Some("1.5"), 7), 7);
    assert_eq!(tick_timestamp(None, 7), 7);
}

#[test]
fn ticker_frames_give_ticks_in_order() {
    let frame = r#"{"action":"snapshot","data":[{"lastPr":"65000.5","ts":"1700000000001"},{"lastPr":"65001","ts":"bad"},{"ts":"1700000000003"},{"lastPr":12,"ts":1700000000004}]}"#;
    let ticks = frame_ticks(frame, 99);
    assert_eq!(
        ticks,
        vec![
            (Some("65000.5".to_string()), 1_700_000_000_001),
            (Some("65001".to_string()), 99),
            (None, 1_700_000_000_003),
            (None, 99),
        ]
    );
}

#[test]
fn frames_without_data_give_no_ticks() {
    assert!(frame_ticks("pong", 5).is_empty());
    assert!(frame_ticks("not json", 5).is_empty());
    assert!(frame_ticks(r#"{"event":"subscribe"}"#, 5).is_empty());
    assert!(frame_ticks(r#"{"data":{"lastPr":"1"}}"#, 5).is_empty());
    assert!(frame_ticks(r#"{"data":[]}"#, 5).is_empty());
}

#[test]
fn update_ticks_in_order() {
    let updates = vec![
        TickerUpdate { last_pr: Some("1.1".to_string()), ts: Some("100".to_string()) },
        TickerUpdate { last_pr: None, ts: Some("x".to_string()) },
        TickerUpdate { last_pr: Some("1.3".to_string()), ts: None },
    ];
    assert_eq!(
        update_ticks(&updates, 7),
        vec![(Some("1.1".to_string()), 100), (None, 7), (Some("1.3".to_string()), 7)]
    );
    assert!(update_ticks(&Vec::new(), 7).is_empty());
}
