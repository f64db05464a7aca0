use camera_pipeline::watcher::{
    on_bus_event, BusEvent, BusVerdict, PositionWatch, WatchAction, MAX_LOST_TIMESTAMPS,
};

#[test]
fn stalled_position_restarts_on_the_seventeenth_sample() {
    let mut watch = PositionWatch::new();
    for _ in 0..(MAX_LOST_TIMESTAMPS + 1) {
        assert_eq!(watch.observe(Some(42)), WatchAction::Keep);
    }
    assert_eq!(watch.lost_timestamps(), MAX_LOST_TIMESTAMPS);
    assert_eq!(watch.observe(Some(42)), WatchAction::Restart);
    assert_eq!(watch.lost_timestamps(), 0);
    assert_eq!(watch.previous_position(), Some(42));
}

#[test]
fn moving_position_resets_the_count() {
    let mut watch = PositionWatch::new();
    assert_eq!(watch.observe(Some(10)), WatchAction::Keep);
    assert_eq!(watch.observe(Some(10)), WatchAction::Keep);
    assert_eq!(watch.observe(Some(10)), WatchAction::Keep);
    assert_eq!(watch.lost_timestamps(), 2);
    assert_eq!(watch.observe(Some(11)), WatchAction::Keep);
    assert_eq!(watch.lost_timestamps(), 0);
    assert_eq!(watch.previous_position(), Some(11));
}

#[test]
fn zero_position_never_restarts() {
    let mut watch = PositionWatch::new();
    for _ in 0..100 {
        assert_eq!(watch.observe(Some(0)), WatchAction::Keep);
        assert_eq!(watch.lost_timestamps(), 0);
    }
}

#[test]
fn failed_query_changes_nothing() {
    let mut watch = PositionWatch::new();
    watch.observe(Some(7));
    watch.observe(Some(7));
    assert_eq!(watch.observe(None), WatchAction::Keep);
    assert_eq!(watch.previous_position(), Some(7));
    assert_eq!(watch.lost_timestamps(), 1);
    let mut fresh = PositionWatch::new();
    assert_eq!(fresh.observe(None), WatchAction::Keep);
    assert_eq!(fresh.previous_position(), None);
}

#[test]
fn bus_events_decide_the_watch() {
    assert_eq!(on_bus_event(BusEvent::EndOfStream), BusVerdict::Finish);
    assert_eq!(
        on_bus_event(BusEvent::Error("no device".to_string())),
        BusVerdict::Fail("no device".to_string())
    );
    assert_eq!(on_bus_event(BusEvent::StateChanged), BusVerdict::KeepReading);
    assert_eq!(on_bus_event(BusEvent::Other), BusVerdict::KeepReading);
}
