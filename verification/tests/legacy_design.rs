use knock_come::legacy::{
    LegacyMaster, LegacyMasterAction, LegacyMasterEvent, LegacyMessage, LegacyReplyAction, LegacySlave,
    LegacySlaveAction, LegacySlaveEvent,
};

#[test]
fn legacy_slave_answers_with_pending_then_counts() {
    let mut s = LegacySlave::new();
    assert_eq!(s.on_come_or_data(), LegacyMessage::SensorData(0));
    assert_eq!(s.on_come_or_data(), LegacyMessage::SensorData(1));
    assert_eq!(s.counter, 2);
    assert_eq!(s.pending_message, LegacyMessage::SensorData(2));
}

#[test]
fn legacy_master_always_answers_zero() {
    let m = LegacyMaster::new();
    assert_eq!(m.on_knock(), LegacyMessage::SensorData(0));
    assert_eq!(m.on_knock(), LegacyMessage::SensorData(0));
}

#[test]
fn legacy_slave_kth_answer_is_k() {
    let mut s = LegacySlave::new();
    for k in 0..1000 {
        assert_eq!(s.on_come_or_data(), LegacyMessage::SensorData(k));
    }
}

#[test]
fn legacy_slave_events_map_to_actions() {
    let mut s = LegacySlave::new();
    assert_eq!(s.on_event(LegacySlaveEvent::Timeout), LegacySlaveAction::Knock);
    assert_eq!(s.counter, 0);
    let m = LegacyMessage::SensorData(42);
    assert_eq!(s.on_event(LegacySlaveEvent::ComeOrData(Some(m))), LegacySlaveAction::Reply(LegacyMessage::SensorData(0)));
    assert_eq!(s.on_event(LegacySlaveEvent::ComeOrData(Some(m))), LegacySlaveAction::Reply(LegacyMessage::SensorData(1)));
    assert_eq!(s.on_event(LegacySlaveEvent::ComeOrData(None)), LegacySlaveAction::Stop);
    assert_eq!(s.counter, 2);
}

#[test]
fn legacy_master_events_map_to_actions() {
    let m = LegacyMaster::new();
    assert_eq!(m.on_event(LegacyMasterEvent::Knock(true)), LegacyMasterAction::Answer(LegacyMessage::SensorData(0)));
    assert_eq!(m.on_event(LegacyMasterEvent::Knock(false)), LegacyMasterAction::Stop);
    assert_eq!(m.on_event(LegacyMasterEvent::Timeout), LegacyMasterAction::Warn);
    assert_eq!(m.on_reply(Some(LegacyMessage::SensorData(7))), LegacyReplyAction::Received(7));
    assert_eq!(m.on_reply(None), LegacyReplyAction::Stop);
}
