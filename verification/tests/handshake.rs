use knock_come::config::{TaskSemantics, MAX_SUM_CNT};
use knock_come::counters::{
    print_and_clear_master_cnts, print_and_clear_slave_cnts, update_master_view_fairness_cnts,
    Filling, MasterCnts, SlaveCnts,
};
use knock_come::master::MasterTask;
use knock_come::protocol::{
    master_set_knock_come_state, slave_set_knock_come_state, KnockComeFault, KnockComeState, Message,
};
use knock_come::slave::SlaveTask;

const NESTED: TaskSemantics = TaskSemantics::MasterSendSlaveNestedSelect;
const ONE: TaskSemantics = TaskSemantics::MasterForceSendSlaveSelect;

/// Runs one full handshake; returns the master's report, if any.
fn handshake(m: &mut MasterTask, s: &mut SlaveTask) -> Option<knock_come::counters::MasterReport> {
    assert!(s.timer_enabled());
    s.on_knock_sent().unwrap();
    assert!(!s.timer_enabled());
    let come = m.on_knock();
    assert_eq!(come, Message::Come);
    m.on_come_sent();
    let reply = if s.semantics == NESTED {
        s.on_nested_message(Some(come)).unwrap()
    } else {
        s.on_master_message(Some(come)).unwrap()
    };
    let report = m.on_slave_reply(reply).unwrap();
    s.on_data_sent().unwrap();
    report
}

#[test]
fn transitions_return_new_state() {
    assert_eq!(
        slave_set_knock_come_state(KnockComeState::SlaveSentDataNowReady, KnockComeState::SlaveSentKnock),
        KnockComeState::SlaveSentKnock
    );
    assert_eq!(
        slave_set_knock_come_state(KnockComeState::SlaveSentKnock, KnockComeState::SlaveGotCome),
        KnockComeState::SlaveGotCome
    );
    assert_eq!(
        slave_set_knock_come_state(KnockComeState::SlaveGotCome, KnockComeState::SlaveSentDataNowReady),
        KnockComeState::SlaveSentDataNowReady
    );
    assert_eq!(
        master_set_knock_come_state(KnockComeState::MasterGotDataNowReady, KnockComeState::MasterGotKnock),
        KnockComeState::MasterGotKnock
    );
    assert_eq!(
        master_set_knock_come_state(KnockComeState::MasterGotKnock, KnockComeState::MasterSentCome),
        KnockComeState::MasterSentCome
    );
    assert_eq!(
        master_set_knock_come_state(KnockComeState::MasterSentCome, KnockComeState::MasterGotDataNowReady),
        KnockComeState::MasterGotDataNowReady
    );
}

#[test]
fn one_handshake_nested() {
    let mut m = MasterTask::new(NESTED);
    let mut s = SlaveTask::new(NESTED);
    assert_eq!(handshake(&mut m, &mut s), None);
    assert_eq!(m.state, KnockComeState::MasterGotDataNowReady);
    assert_eq!(s.state, KnockComeState::SlaveSentDataNowReady);
    assert_eq!(m.data_from_slave, 1);
    assert_eq!(s.data_from_slave, 2);
    assert_eq!(m.cnts.sm_knock_cnt, 1);
    assert_eq!(m.cnts.ms_come_cnt, 1);
    assert_eq!(m.cnts.sm_data_cnt, 1);
    assert_eq!(m.cnts.master_fatter_cnt, 1);
    assert_eq!(s.cnts.sm_knock_cnt, 1);
    assert_eq!(s.cnts.ms_come_cnt, 1);
    assert_eq!(s.cnts.sm_data_cnt, 1);
}

#[test]
fn one_handshake_one_select() {
    let mut m = MasterTask::new(ONE);
    let mut s = SlaveTask::new(ONE);
    assert_eq!(handshake(&mut m, &mut s), None);
    assert_eq!(m.data_from_slave, 1);
    assert_eq!(s.data_from_slave, 2);
}

#[test]
fn spontaneous_stream_in_step() {
    let mut m = MasterTask::new(NESTED);
    let mut s = SlaveTask::new(NESTED);
    for i in 1..=5u32 {
        let msg = m.spontaneous_message();
        assert_eq!(msg, Message::SpontaneousData { val: i });
        assert_eq!(s.on_master_message(Some(msg)), Ok(None));
        assert_eq!(m.on_spontaneous_sent(true), Ok(None));
    }
    assert_eq!(s.data_from_master, 5);
    assert_eq!(s.cnts.ms_spontaneous_data_cnt_1, 5);
    assert_eq!(m.data_from_master, 6);
    assert_eq!(m.cnts.ms_spontaneous_data_cnt, 5);
    assert_eq!(m.cnts.master_thinner_cnt, 5);
}

#[test]
fn spontaneous_data_while_waiting_for_come() {
    let mut m = MasterTask::new(NESTED);
    let mut s = SlaveTask::new(NESTED);
    s.on_knock_sent().unwrap();
    let msg = m.spontaneous_message();
    assert_eq!(s.on_nested_message(Some(msg)), Ok(None));
    assert_eq!(m.on_spontaneous_sent(true), Ok(None));
    assert_eq!(s.cnts.ms_spontaneous_data_cnt_2, 1);
    assert_eq!(s.state, KnockComeState::SlaveSentKnock);
    let come = m.on_knock();
    m.on_come_sent();
    let reply = s.on_nested_message(Some(come)).unwrap();
    assert_eq!(reply, Some(Message::SlaveData { val: 1 }));
    assert_eq!(m.on_slave_reply(reply), Ok(None));
    assert_eq!(m.cnts.master_same_cnt, 1);
    assert_eq!(m.cnts.master_thinner_cnt, 1);
}

#[test]
fn failed_spontaneous_send_counts_error() {
    let mut m = MasterTask::new(TaskSemantics::MasterTrySendSlaveSelect);
    assert_eq!(m.on_spontaneous_sent(false), Ok(None));
    assert_eq!(m.cnts.ms_spontaneous_data_err_cnt, 1);
    assert_eq!(m.data_from_master, 1);
    assert_eq!(m.spontaneous_message(), Message::SpontaneousData { val: 1 });
}

#[test]
fn master_reports_after_max_handshakes() {
    let mut m = MasterTask::new(NESTED);
    let mut s = SlaveTask::new(NESTED);
    for _ in 1..MAX_SUM_CNT {
        assert_eq!(handshake(&mut m, &mut s), None);
    }
    let report = handshake(&mut m, &mut s).unwrap();
    assert_eq!(report.caller, 1);
    assert_eq!(report.sm_knock_cnt, 1000);
    assert_eq!(report.ms_come_cnt, 1000);
    assert_eq!(report.sm_data_cnt, 1000);
    assert_eq!(report.ms_spontaneous_data_cnt, 0);
    assert_eq!(report.filling, Filling::MasterInc);
    assert_eq!(m.cnts, MasterCnts::new());
}

#[test]
fn slave_reports_every_max_knocks() {
    let mut m = MasterTask::new(NESTED);
    let mut s = SlaveTask::new(NESTED);
    for _ in 1..MAX_SUM_CNT {
        handshake(&mut m, &mut s);
    }
    let report = s.on_knock_sent().unwrap().unwrap();
    assert_eq!(report.caller, 21);
    assert_eq!(report.sm_knock_cnt, 1000);
    assert_eq!(report.ms_come_cnt, 999);
    assert_eq!(report.sm_data_cnt, 999);
    assert_eq!(report.ms_spontaneous_data_sum, 0);
    assert_eq!(s.cnts, SlaveCnts::new());
    assert_eq!(s.state, KnockComeState::SlaveSentKnock);
}

#[test]
fn master_reports_after_max_spontaneous() {
    let mut m = MasterTask::new(NESTED);
    for _ in 1..MAX_SUM_CNT {
        assert_eq!(m.on_spontaneous_sent(true), Ok(None));
    }
    let report = m.on_spontaneous_sent(true).unwrap().unwrap();
    assert_eq!(report.caller, 2);
    assert_eq!(report.ms_spontaneous_data_cnt, 1000);
    assert_eq!(report.filling, Filling::MasterDec);
    assert_eq!(m.data_from_master, 1001);
    assert_eq!(m.cnts, MasterCnts::new());
}

#[test]
fn master_sequence_gap() {
    let mut m = MasterTask::new(NESTED);
    m.on_knock();
    m.on_come_sent();
    let before = m;
    assert_eq!(
        m.on_slave_reply(Some(Message::SlaveData { val: 2 })),
        Err(KnockComeFault::SequenceGap { expected: 1, got: 2 })
    );
    assert_eq!(m, before);
}

#[test]
fn master_protocol_violation() {
    let mut m = MasterTask::new(NESTED);
    m.on_knock();
    m.on_come_sent();
    assert_eq!(m.on_slave_reply(None), Err(KnockComeFault::ProtocolViolation));
    assert_eq!(m.on_slave_reply(Some(Message::Come)), Err(KnockComeFault::ProtocolViolation));
    assert_eq!(
        m.on_slave_reply(Some(Message::SpontaneousData { val: 1 })),
        Err(KnockComeFault::ProtocolViolation)
    );
}

#[test]
fn master_counter_overflow() {
    let mut m = MasterTask::new(NESTED);
    m.data_from_master = u32::MAX;
    assert_eq!(m.on_spontaneous_sent(true), Err(KnockComeFault::CounterOverflow));
    let mut m2 = MasterTask::new(NESTED);
    m2.cnts.ms_spontaneous_data_err_cnt = u32::MAX;
    assert_eq!(m2.on_spontaneous_sent(false), Err(KnockComeFault::CounterOverflow));
}

#[test]
fn slave_sequence_gap() {
    let mut s = SlaveTask::new(NESTED);
    assert_eq!(
        s.on_master_message(Some(Message::SpontaneousData { val: 3 })),
        Err(KnockComeFault::SequenceGap { expected: 1, got: 3 })
    );
    assert_eq!(s, SlaveTask::new(NESTED));
}

#[test]
fn slave_come_not_expected_in_outer_select() {
    let mut s = SlaveTask::new(NESTED);
    s.on_knock_sent().unwrap();
    assert_eq!(s.on_master_message(Some(Message::Come)), Err(KnockComeFault::ComeNotExpected));
}

#[test]
fn slave_come_without_knock() {
    let mut s = SlaveTask::new(ONE);
    assert_eq!(s.on_master_message(Some(Message::Come)), Err(KnockComeFault::InvalidTransition));
}

#[test]
fn slave_unexpected_packet_and_closed_channel() {
    let mut s = SlaveTask::new(ONE);
    assert_eq!(
        s.on_master_message(Some(Message::SlaveData { val: 1 })),
        Err(KnockComeFault::UnexpectedPacket)
    );
    assert_eq!(s.on_master_message(None), Err(KnockComeFault::ChannelClosed));
    let mut n = SlaveTask::new(NESTED);
    n.on_knock_sent().unwrap();
    assert_eq!(
        n.on_nested_message(Some(Message::SlaveData { val: 1 })),
        Err(KnockComeFault::UnexpectedPacket)
    );
    assert_eq!(n.on_nested_message(None), Err(KnockComeFault::ChannelClosed));
}

#[test]
fn slave_counter_overflow() {
    let mut s = SlaveTask::new(ONE);
    s.on_knock_sent().unwrap();
    s.on_master_message(Some(Message::Come)).unwrap();
    s.data_from_slave = u32::MAX;
    assert_eq!(s.on_data_sent(), Err(KnockComeFault::CounterOverflow));
    let mut t = SlaveTask::new(ONE);
    t.cnts.ms_spontaneous_data_cnt_1 = u64::MAX;
    assert_eq!(
        t.on_master_message(Some(Message::SpontaneousData { val: 1 })),
        Err(KnockComeFault::CounterOverflow)
    );
}

#[test]
fn fairness_update_picks_one_counter() {
    let mut c = MasterCnts::new();
    update_master_view_fairness_cnts(&mut c);
    assert_eq!(c.master_same_cnt, 1);
    c.sm_data_cnt = 3;
    update_master_view_fairness_cnts(&mut c);
    assert_eq!(c.master_fatter_cnt, 1);
    c.ms_spontaneous_data_cnt = 5;
    update_master_view_fairness_cnts(&mut c);
    assert_eq!(c.master_thinner_cnt, 1);
    assert_eq!((c.master_fatter_cnt, c.master_same_cnt, c.master_thinner_cnt), (1, 1, 1));
}

#[test]
fn reports_take_counters_and_clear() {
    let mut c = MasterCnts::new();
    c.sm_knock_cnt = 7;
    c.ms_come_cnt = 7;
    c.sm_data_cnt = 7;
    c.ms_spontaneous_data_cnt = 9;
    c.ms_spontaneous_data_err_cnt = 2;
    let r = print_and_clear_master_cnts(0, &mut c);
    assert_eq!(r.caller, 0);
    assert_eq!((r.sm_knock_cnt, r.ms_come_cnt, r.sm_data_cnt), (7, 7, 7));
    assert_eq!((r.ms_spontaneous_data_cnt, r.ms_spontaneous_data_err_cnt), (9, 2));
    assert_eq!(r.filling.label(), "MASTER-DEC");
    assert_eq!(c, MasterCnts::default());
    assert_eq!(print_and_clear_master_cnts(3, &mut c).filling.label(), "MASTER-EQL");

    let mut sc = SlaveCnts::new();
    sc.ms_spontaneous_data_cnt_1 = 901;
    sc.ms_spontaneous_data_cnt_2 = 4;
    let sr = print_and_clear_slave_cnts(20, &mut sc);
    assert_eq!(sr.caller, 20);
    assert_eq!(sr.ms_spontaneous_data_sum, 905);
    assert_eq!(sc, SlaveCnts::default());
    assert_eq!(Filling::MasterInc.label(), "MASTER-INC");
}

#[test]
fn fairness_counts_sum_to_updates() {
    let mut c = MasterCnts::new();
    for n in 1..=5000u32 {
        c.sm_data_cnt = (n * 7) % 13;
        c.ms_spontaneous_data_cnt = (n * 5) % 11;
        update_master_view_fairness_cnts(&mut c);
        assert_eq!(c.master_fatter_cnt + c.master_same_cnt + c.master_thinner_cnt, n);
    }
}
