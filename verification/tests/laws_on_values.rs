use knock_come::config::TaskSemantics;
use knock_come::master::MasterTask;
use knock_come::protocol::{KnockComeState, Message};
use knock_come::slave::SlaveTask;

fn in_step(m: &MasterTask, s: &SlaveTask) -> bool {
    s.data_from_master as u64 + 1 == m.data_from_master as u64
        && m.data_from_slave as u64 + 1 == s.data_from_slave as u64
}

#[test]
fn fresh_tasks_are_in_step() {
    for sem in [
        TaskSemantics::MasterTrySendSlaveSelect,
        TaskSemantics::MasterSendSlaveNestedSelect,
        TaskSemantics::MasterForceSendSlaveSelect,
    ] {
        assert!(in_step(&MasterTask::new(sem), &SlaveTask::new(sem)));
    }
}

#[test]
fn streams_stay_in_step_over_mixed_events() {
    let sem = TaskSemantics::MasterSendSlaveNestedSelect;
    let mut m = MasterTask::new(sem);
    let mut s = SlaveTask::new(sem);
    for round in 0..3000u32 {
        if round % 3 == 0 {
            // spontaneous data while the slave is ready
            let msg = m.spontaneous_message();
            assert_eq!(s.on_master_message(Some(msg)), Ok(None));
            m.on_spontaneous_sent(true).unwrap();
        } else {
            s.on_knock_sent().unwrap();
            if round % 5 == 0 {
                // spontaneous data while the slave waits for come
                let msg = m.spontaneous_message();
                assert_eq!(s.on_nested_message(Some(msg)), Ok(None));
                m.on_spontaneous_sent(true).unwrap();
            }
            let come = m.on_knock();
            m.on_come_sent();
            let reply = s.on_nested_message(Some(come)).unwrap();
            m.on_slave_reply(reply).unwrap();
            s.on_data_sent().unwrap();
        }
        assert!(in_step(&m, &s));
        assert_eq!(m.state, KnockComeState::MasterGotDataNowReady);
        assert_eq!(m.cnts.sm_knock_cnt, m.cnts.ms_come_cnt);
        assert_eq!(m.cnts.ms_come_cnt, m.cnts.sm_data_cnt as u64);
        assert!(m.cnts.sm_data_cnt < 1000 && m.cnts.ms_spontaneous_data_cnt < 1000);
    }
}

#[test]
fn timer_stays_disabled_until_data_sent() {
    let sem = TaskSemantics::MasterForceSendSlaveSelect;
    let mut s = SlaveTask::new(sem);
    assert!(s.timer_enabled());
    s.on_knock_sent().unwrap();
    assert!(!s.timer_enabled());
    assert_eq!(s.on_master_message(Some(Message::SpontaneousData { val: 1 })), Ok(None));
    assert!(!s.timer_enabled());
    let reply = s.on_master_message(Some(Message::Come)).unwrap();
    assert_eq!(reply, Some(Message::SlaveData { val: 1 }));
    assert!(!s.timer_enabled());
    s.on_data_sent().unwrap();
    assert!(s.timer_enabled());
}

#[test]
fn slave_marks_alternate_and_kth_data_is_k() {
    for sem in [TaskSemantics::MasterSendSlaveNestedSelect, TaskSemantics::MasterForceSendSlaveSelect] {
        let mut s = SlaveTask::new(sem);
        let mut spont = 1u32;
        for k in 1..=2500u32 {
            assert!(s.timer_enabled());
            s.on_knock_sent().unwrap();
            let m = Message::SpontaneousData { val: spont };
            spont += 1;
            let come = if sem == TaskSemantics::MasterSendSlaveNestedSelect {
                assert_eq!(s.on_nested_message(Some(m)), Ok(None));
                s.on_nested_message(Some(Message::Come)).unwrap()
            } else {
                assert_eq!(s.on_master_message(Some(m)), Ok(None));
                s.on_master_message(Some(Message::Come)).unwrap()
            };
            assert_eq!(come, Some(Message::SlaveData { val: k }));
            s.on_data_sent().unwrap();
        }
    }
}

#[test]
fn master_kth_sent_value_is_k_and_failures_keep_it() {
    let mut m = MasterTask::new(TaskSemantics::MasterTrySendSlaveSelect);
    let mut k = 1u32;
    for round in 0..3000u32 {
        let sent = round % 3 != 2;
        assert_eq!(m.spontaneous_message(), Message::SpontaneousData { val: k });
        m.on_spontaneous_sent(sent).unwrap();
        if sent {
            k += 1;
        }
        if round % 7 == 0 {
            assert_eq!(m.on_knock(), Message::Come);
            assert_eq!(m.state, KnockComeState::MasterGotKnock);
            m.on_come_sent();
            assert_eq!(m.state, KnockComeState::MasterSentCome);
            let v = m.data_from_slave + 1;
            m.on_slave_reply(Some(Message::SlaveData { val: v })).unwrap();
        }
    }
}

#[test]
fn joint_run_with_knock_in_flight_and_spontaneous_data() {
    // The slave knocks; before the master takes the knock, spontaneous data
    // reaches the slave while it waits for come; then the handshake ends.
    for sem in [
        TaskSemantics::MasterTrySendSlaveSelect,
        TaskSemantics::MasterSendSlaveNestedSelect,
        TaskSemantics::MasterForceSendSlaveSelect,
    ] {
        let mut m = MasterTask::new(sem);
        let mut s = SlaveTask::new(sem);
        for _ in 0..1500 {
            s.on_knock_sent().unwrap();
            let msg = m.spontaneous_message();
            let r = if sem == TaskSemantics::MasterSendSlaveNestedSelect {
                s.on_nested_message(Some(msg))
            } else {
                s.on_master_message(Some(msg))
            };
            assert_eq!(r, Ok(None));
            m.on_spontaneous_sent(true).unwrap();
            m.on_spontaneous_sent(false).unwrap();
            assert!(in_step(&m, &s));
            let come = m.on_knock();
            m.on_come_sent();
            let data = if sem == TaskSemantics::MasterSendSlaveNestedSelect {
                s.on_nested_message(Some(come)).unwrap()
            } else {
                s.on_master_message(Some(come)).unwrap()
            };
            m.on_slave_reply(data).unwrap();
            s.on_data_sent().unwrap();
            assert!(in_step(&m, &s));
        }
    }
}
