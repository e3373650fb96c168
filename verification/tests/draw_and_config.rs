use knock_come::config::{
    master_send_mode, println_iff_admits, slave_receive_mode, LogLevel, MasterComeSendT,
    SlaveReceiveT, TaskSemantics, CURRENT_LOG_LEVEL, RANDOM_VAL_MAX_MS, RANDOM_VAL_MIN_MS,
};
use knock_come::draw::{get_next_timeout_ms, next_draw_ms, xorshift64};
use knock_come::legacy::{legacy_random_millis, LEGACY_RANDOM_VAL_MAX_MS};
use knock_come::redraw::{RedrawMaster, MASTER_SEED, SLAVE_SEED, TARGET_MASTER_EVENTS};

#[test]
fn xorshift64_from_one() {
    let mut state: u64 = 1;
    let x = xorshift64(&mut state);
    assert_eq!(x, 1082269761);
    assert_eq!(state, 1082269761);
    let y = xorshift64(&mut state);
    assert_eq!(y, 1152992998833853505);
}

#[test]
fn xorshift64_zero_stays_zero() {
    let mut state: u64 = 0;
    assert_eq!(xorshift64(&mut state), 0);
    assert_eq!(state, 0);
}

#[test]
fn xorshift64_nonzero_seed_never_reaches_zero() {
    let mut state: u64 = 1;
    for _ in 0..10_000 {
        assert_ne!(xorshift64(&mut state), 0);
    }
}

#[test]
fn next_draw_ms_from_seeds() {
    let mut m = MASTER_SEED;
    assert_eq!(next_draw_ms(&mut m), 89);
    assert_eq!(m, 15860402102123842989);
    assert_eq!(next_draw_ms(&mut m), 74);
    let mut s = SLAVE_SEED;
    assert_eq!(next_draw_ms(&mut s), 17);
    assert_eq!(next_draw_ms(&mut s), 57);
}

#[test]
fn next_draw_ms_always_below_100() {
    let mut state: u64 = 12345;
    for _ in 0..10_000 {
        assert!(next_draw_ms(&mut state) < 100);
    }
}

#[test]
fn random_timeouts_stay_in_range() {
    for _ in 0..1000 {
        let ms = get_next_timeout_ms();
        assert!(RANDOM_VAL_MIN_MS <= ms && ms <= RANDOM_VAL_MAX_MS);
        assert!(legacy_random_millis() <= LEGACY_RANDOM_VAL_MAX_MS);
    }
}

#[test]
fn random_timeouts_are_not_constant() {
    let first = get_next_timeout_ms();
    let mut differs = false;
    for _ in 0..1000 {
        if get_next_timeout_ms() != first {
            differs = true;
        }
    }
    assert!(differs);
}

#[test]
fn semantics_modes() {
    assert_eq!(master_send_mode(TaskSemantics::MasterTrySendSlaveSelect), MasterComeSendT::TrySend);
    assert_eq!(master_send_mode(TaskSemantics::MasterSendSlaveNestedSelect), MasterComeSendT::SendAsynchAwait);
    assert_eq!(master_send_mode(TaskSemantics::MasterForceSendSlaveSelect), MasterComeSendT::SendAsynchAwait);
    assert_eq!(slave_receive_mode(TaskSemantics::MasterTrySendSlaveSelect), SlaveReceiveT::OneSelect);
    assert_eq!(slave_receive_mode(TaskSemantics::MasterSendSlaveNestedSelect), SlaveReceiveT::SelectPlusNestedSelect);
    assert_eq!(slave_receive_mode(TaskSemantics::MasterForceSendSlaveSelect), SlaveReceiveT::OneSelect);
}

#[test]
fn log_filter() {
    assert!(println_iff_admits(LogLevel::All, LogLevel::All));
    assert!(println_iff_admits(LogLevel::All, LogLevel::CountersOnly));
    assert!(!println_iff_admits(LogLevel::All, LogLevel::Silent));
    assert!(println_iff_admits(LogLevel::CountersOnly, LogLevel::CountersOnly));
    assert!(!println_iff_admits(LogLevel::CountersOnly, LogLevel::All));
    assert!(!println_iff_admits(LogLevel::Silent, LogLevel::CountersOnly));
    assert!(!println_iff_admits(LogLevel::Silent, LogLevel::All));
    assert!(println_iff_admits(CURRENT_LOG_LEVEL, LogLevel::CountersOnly));
    assert!(!println_iff_admits(CURRENT_LOG_LEVEL, LogLevel::All));
}

#[test]
fn redraw_master_stops_at_target() {
    let mut t = RedrawMaster::new(MASTER_SEED);
    let mut events = 0;
    while t.master_running() {
        let ms = t.draw();
        assert!(ms < 100);
        t.on_timer_fired();
        assert_eq!(t.data_value(), events);
        t.on_spontaneous_sent();
        events += 1;
    }
    assert_eq!(events, TARGET_MASTER_EVENTS);
    assert_eq!(t.count, TARGET_MASTER_EVENTS);
}
