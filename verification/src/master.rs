//! The decisions of the master task: it takes knocks, answers with `Come`,
//! waits for the slave's data, and sends spontaneous data whenever its local
//! timer fires.  The task itself (channels, timer, printing) runs around these
//! steps.
use vstd::prelude::*;
use crate::config::{
    master_send_mode, master_send_mode_spec, MasterComeSendT, TaskSemantics, DATA_FIRST_AND_INC,
    MAX_SUM_CNT,
};
use crate::counters::{
    master_report_of, print_and_clear_master_cnts, update_master_view_fairness_cnts, MasterCnts,
    MasterReport,
};
use crate::protocol::{
    is_master_state, master_set_knock_come_state, KnockComeFault, KnockComeState, Message,
};

verus! {

/// The state of the master task between two events.
#[derive(Clone, Copy, Debug, PartialEq, Eq, Structural)]
pub struct MasterTask {
    /// The semantics the task runs with.
    pub semantics: TaskSemantics,
    /// The master's phase of the handshake.
    pub state: KnockComeState,
    /// The value of the next spontaneous data to send.
    pub data_from_master: u32,
    /// The last value received from the slave (0 before the first).
    pub data_from_slave: u32,
    /// The counters since the last report.
    pub cnts: MasterCnts,
}

/// The outcome of a master step: the next state and what to report, or the
/// fault that stops the task.
pub type MasterOutcome = Result<(MasterTask, Option<MasterReport>), KnockComeFault>;

impl MasterTask {
    /// The invariant of the master between events: it is in one of its own
    /// states; each counter that triggers a report stays below `MAX_SUM_CNT`;
    /// every data event made one fairness update; every knock got a `Come`
    /// and every `Come` got data, but for the handshake under way.
    pub open spec fn wf(self) -> bool {
        let c = self.cnts;
        let knock_open: int = if self.state == KnockComeState::MasterGotDataNowReady { 0 } else { 1 };
        let come_open: int = if self.state == KnockComeState::MasterSentCome { 1 } else { 0 };
        &&& is_master_state(self.state)
        &&& c.sm_data_cnt < MAX_SUM_CNT
        &&& c.ms_spontaneous_data_cnt < MAX_SUM_CNT
        &&& c.master_fatter_cnt + c.master_same_cnt + c.master_thinner_cnt
            == c.sm_data_cnt + c.ms_spontaneous_data_cnt
        &&& c.sm_knock_cnt == c.sm_data_cnt + knock_open
        &&& c.ms_come_cnt == c.sm_data_cnt + come_open
    }

    /// Whether the master is between handshakes.
    pub open spec fn is_ready(self) -> bool {
        self.state == KnockComeState::MasterGotDataNowReady
    }

    /// The master as the task starts it.
    pub open spec fn initial(semantics: TaskSemantics) -> MasterTask {
        MasterTask {
            semantics: semantics,
            state: KnockComeState::MasterGotDataNowReady,
            data_from_master: DATA_FIRST_AND_INC,
            data_from_slave: 0,
            cnts: MasterCnts::zero(),
        }
    }

    /// The master after it took a knock.
    pub open spec fn knocked(self) -> MasterTask {
        MasterTask {
            state: KnockComeState::MasterGotKnock,
            cnts: MasterCnts { sm_knock_cnt: (self.cnts.sm_knock_cnt + 1) as u64, ..self.cnts },
            ..self
        }
    }

    /// The master after its `Come` went out.
    pub open spec fn come_sent(self) -> MasterTask {
        MasterTask {
            state: KnockComeState::MasterSentCome,
            cnts: MasterCnts { ms_come_cnt: (self.cnts.ms_come_cnt + 1) as u64, ..self.cnts },
            ..self
        }
    }

    /// The counters after the master counted one more event with `counted`,
    /// updated its fairness view, and reported (as `caller`) if the event
    /// count reached `MAX_SUM_CNT`; with the report, if any.
    pub open spec fn counted(counted: MasterCnts, caller: u64, reached: bool) -> (MasterCnts, Option<MasterReport>) {
        let c = counted.fairness_updated();
        if reached {
            (MasterCnts::zero(), Some(master_report_of(caller, c)))
        } else {
            (c, None)
        }
    }

    /// The outcome of the slave's reply to `Come`: data that follows the last
    /// value completes the handshake; data that does not is a sequence gap;
    /// anything else, or a closed channel, breaks the protocol.  A report is
    /// due when the data count reaches `MAX_SUM_CNT`.
    pub open spec fn reply_outcome(self, reply: Option<Message>) -> MasterOutcome {
        match reply {
            Some(Message::SlaveData { val }) => {
                if val == self.data_from_slave + DATA_FIRST_AND_INC {
                    let bumped = MasterCnts { sm_data_cnt: (self.cnts.sm_data_cnt + 1) as u32, ..self.cnts };
                    let (cnts, report) = MasterTask::counted(bumped, 1, bumped.sm_data_cnt == MAX_SUM_CNT);
                    Ok((
                        MasterTask {
                            state: KnockComeState::MasterGotDataNowReady,
                            data_from_slave: val,
                            cnts: cnts,
                            ..self
                        },
                        report,
                    ))
                } else {
                    Err(KnockComeFault::SequenceGap {
                        expected: (self.data_from_slave + DATA_FIRST_AND_INC) as u64,
                        got: val,
                    })
                }
            },
            _ => Err(KnockComeFault::ProtocolViolation),
        }
    }

    /// The message the master sends when its local timer fires.
    pub open spec fn spontaneous_message_spec(self) -> Message {
        Message::SpontaneousData { val: self.data_from_master }
    }

    /// The outcome of a spontaneous send that went out (`sent`) or not: a sent
    /// value moves the stream on by one and is counted, with a report when the
    /// count reaches `MAX_SUM_CNT`; a failed send is counted as an error.
    pub open spec fn spontaneous_outcome(self, sent: bool) -> MasterOutcome {
        if sent {
            if self.data_from_master == u32::MAX {
                Err(KnockComeFault::CounterOverflow)
            } else {
                let bumped = MasterCnts {
                    ms_spontaneous_data_cnt: (self.cnts.ms_spontaneous_data_cnt + 1) as u32,
                    ..self.cnts
                };
                let (cnts, report) = MasterTask::counted(
                    bumped,
                    2,
                    bumped.ms_spontaneous_data_cnt == MAX_SUM_CNT,
                );
                Ok((
                    MasterTask {
                        data_from_master: (self.data_from_master + DATA_FIRST_AND_INC) as u32,
                        cnts: cnts,
                        ..self
                    },
                    report,
                ))
            }
        } else {
            if self.cnts.ms_spontaneous_data_err_cnt == u32::MAX {
                Err(KnockComeFault::CounterOverflow)
            } else {
                Ok((
                    MasterTask {
                        cnts: MasterCnts {
                            ms_spontaneous_data_err_cnt: (self.cnts.ms_spontaneous_data_err_cnt + 1) as u32,
                            ..self.cnts
                        },
                        ..self
                    },
                    None,
                ))
            }
        }
    }

    /// The master as the task starts it: ready, the spontaneous stream at its
    /// first value, nothing received from the slave yet, all counters zero.
    pub fn new(semantics: TaskSemantics) -> (m: MasterTask)
        ensures
            m == MasterTask::initial(semantics),
            m.wf(),
    {
        MasterTask {
            semantics: semantics,
            state: KnockComeState::MasterGotDataNowReady,
            data_from_master: DATA_FIRST_AND_INC,
            data_from_slave: 0,
            cnts: MasterCnts::new(),
        }
    }

    /// How the master sends spontaneous data under its semantics.
    pub fn send_mode(&self) -> (mode: MasterComeSendT)
        ensures
            mode == master_send_mode_spec(self.semantics),
    {
        master_send_mode(self.semantics)
    }

    /// A knock arrived while the master is ready: it counts the knock, moves
    /// to `MasterGotKnock`, and returns the `Come` to send.
    pub fn on_knock(&mut self) -> (come: Message)
        requires
            old(self).wf(),
            old(self).is_ready(),
        ensures
            come == Message::Come,
            *final(self) == old(self).knocked(),
            final(self).wf(),
            final(self).state == KnockComeState::MasterGotKnock,
            final(self).cnts.sm_knock_cnt == old(self).cnts.sm_knock_cnt + 1,
            final(self).cnts.ms_come_cnt == old(self).cnts.ms_come_cnt,
            final(self).cnts.sm_data_cnt == old(self).cnts.sm_data_cnt,
            final(self).data_from_master == old(self).data_from_master,
            final(self).data_from_slave == old(self).data_from_slave,
    {
        self.state = master_set_knock_come_state(self.state, KnockComeState::MasterGotKnock);
        self.cnts.sm_knock_cnt = self.cnts.sm_knock_cnt + 1;
        Message::Come
    }

    /// The `Come` went out: the master counts it and moves to `MasterSentCome`
    /// to wait for the slave's data.
    pub fn on_come_sent(&mut self)
        requires
            old(self).wf(),
            old(self).state == KnockComeState::MasterGotKnock,
        ensures
            *final(self) == old(self).come_sent(),
            final(self).wf(),
            final(self).state == KnockComeState::MasterSentCome,
            final(self).cnts.ms_come_cnt == old(self).cnts.ms_come_cnt + 1,
            final(self).cnts.sm_knock_cnt == old(self).cnts.sm_knock_cnt,
            final(self).cnts.sm_data_cnt == old(self).cnts.sm_data_cnt,
            final(self).data_from_master == old(self).data_from_master,
            final(self).data_from_slave == old(self).data_from_slave,
    {
        self.cnts.ms_come_cnt = self.cnts.ms_come_cnt + 1;
        self.state = master_set_knock_come_state(self.state, KnockComeState::MasterSentCome);
    }

    /// The slave's reply to `Come` arrived (`None`: the channel closed).  On
    /// success the master is ready again and returns the report that is due,
    /// if any; on a fault it is left as it was.
    pub fn on_slave_reply(&mut self, reply: Option<Message>) -> (r: Result<Option<MasterReport>, KnockComeFault>)
        requires
            old(self).wf(),
            old(self).state == KnockComeState::MasterSentCome,
        ensures
            final(self).wf(),
            r is Ok ==> old(self).reply_outcome(reply) == Ok::<(MasterTask, Option<MasterReport>), KnockComeFault>((*final(self), r->Ok_0)),
            r is Err ==> old(self).reply_outcome(reply) == Err::<(MasterTask, Option<MasterReport>), KnockComeFault>(r->Err_0),
            r is Err ==> *final(self) == *old(self),
            reply matches Some(Message::SlaveData { val }) ==> (val == old(self).data_from_slave + 1 ==> r is Ok),
            reply matches Some(Message::SlaveData { val }) ==> (val != old(self).data_from_slave + 1
                ==> r == Err::<Option<MasterReport>, KnockComeFault>(
                KnockComeFault::SequenceGap { expected: (old(self).data_from_slave + 1) as u64, got: val },
            )),
            !(reply matches Some(Message::SlaveData { .. }))
                ==> r == Err::<Option<MasterReport>, KnockComeFault>(KnockComeFault::ProtocolViolation),
            r is Ok ==> reply == Some(Message::SlaveData { val: (old(self).data_from_slave + 1) as u32 }),
            r is Ok ==> final(self).data_from_slave == old(self).data_from_slave + 1,
            r is Ok ==> final(self).is_ready(),
            r is Ok ==> final(self).data_from_master == old(self).data_from_master,
            r is Ok ==> final(self).semantics == old(self).semantics,
            r is Ok && old(self).cnts.sm_data_cnt + 1 < MAX_SUM_CNT ==> r->Ok_0 is None
                && final(self).cnts.sm_data_cnt == old(self).cnts.sm_data_cnt + 1
                && final(self).cnts.sm_knock_cnt == old(self).cnts.sm_knock_cnt
                && final(self).cnts.ms_come_cnt == old(self).cnts.ms_come_cnt
                && final(self).cnts.ms_spontaneous_data_cnt == old(self).cnts.ms_spontaneous_data_cnt
                && final(self).cnts.ms_spontaneous_data_err_cnt == old(self).cnts.ms_spontaneous_data_err_cnt,
            r is Ok && old(self).cnts.sm_data_cnt + 1 == MAX_SUM_CNT ==> r->Ok_0 is Some
                && r->Ok_0->Some_0.caller == 1
                && r->Ok_0->Some_0.sm_data_cnt == MAX_SUM_CNT
                && r->Ok_0->Some_0.sm_knock_cnt == old(self).cnts.sm_knock_cnt
                && r->Ok_0->Some_0.ms_come_cnt == old(self).cnts.ms_come_cnt
                && r->Ok_0->Some_0.ms_spontaneous_data_cnt == old(self).cnts.ms_spontaneous_data_cnt
                && r->Ok_0->Some_0.ms_spontaneous_data_err_cnt == old(self).cnts.ms_spontaneous_data_err_cnt
                && final(self).cnts == MasterCnts::zero(),
    {
        match reply {
            Some(Message::SlaveData { val }) => {
                let expected: u64 = self.data_from_slave as u64 + 1;
                if val as u64 != expected {
                    return Err(KnockComeFault::SequenceGap { expected: expected, got: val });
                }
                self.data_from_slave = val;
                self.cnts.sm_data_cnt = self.cnts.sm_data_cnt + 1;
                update_master_view_fairness_cnts(&mut self.cnts);
                let report = if self.cnts.sm_data_cnt as u64 == MAX_SUM_CNT {
                    Some(print_and_clear_master_cnts(1, &mut self.cnts))
                } else {
                    None
                };
                self.state = master_set_knock_come_state(
                    self.state,
                    KnockComeState::MasterGotDataNowReady,
                );
                Ok(report)
            },
            _ => Err(KnockComeFault::ProtocolViolation),
        }
    }

    /// The message to send when the local timer fires: spontaneous data with
    /// the current value of the master's stream.
    pub fn spontaneous_message(&self) -> (m: Message)
        ensures
            m == self.spontaneous_message_spec(),
    {
        Message::SpontaneousData { val: self.data_from_master }
    }

    /// The spontaneous send finished, successfully (`sent`) or not.  On
    /// success the master returns the report that is due, if any; on a fault
    /// it is left as it was.
    pub fn on_spontaneous_sent(&mut self, sent: bool) -> (r: Result<Option<MasterReport>, KnockComeFault>)
        requires
            old(self).wf(),
            old(self).is_ready(),
        ensures
            final(self).wf(),
            r is Ok ==> old(self).spontaneous_outcome(sent) == Ok::<(MasterTask, Option<MasterReport>), KnockComeFault>((*final(self), r->Ok_0)),
            r is Err ==> old(self).spontaneous_outcome(sent) == Err::<(MasterTask, Option<MasterReport>), KnockComeFault>(r->Err_0),
            r is Err ==> *final(self) == *old(self),
            r is Err <==> (if sent {
                old(self).data_from_master == u32::MAX
            } else {
                old(self).cnts.ms_spontaneous_data_err_cnt == u32::MAX
            }),
            r is Err ==> r->Err_0 == KnockComeFault::CounterOverflow,
            r is Ok && sent ==> final(self).data_from_master == old(self).data_from_master + 1,
            r is Ok && !sent ==> final(self).data_from_master == old(self).data_from_master,
            r is Ok && !sent ==> r->Ok_0 is None
                && final(self).cnts.ms_spontaneous_data_err_cnt == old(self).cnts.ms_spontaneous_data_err_cnt + 1
                && final(self).cnts.ms_spontaneous_data_cnt == old(self).cnts.ms_spontaneous_data_cnt
                && final(self).cnts.sm_data_cnt == old(self).cnts.sm_data_cnt,
            r is Ok && sent && old(self).cnts.ms_spontaneous_data_cnt + 1 < MAX_SUM_CNT ==> r->Ok_0 is None
                && final(self).cnts.ms_spontaneous_data_cnt == old(self).cnts.ms_spontaneous_data_cnt + 1
                && final(self).cnts.ms_spontaneous_data_err_cnt == old(self).cnts.ms_spontaneous_data_err_cnt
                && final(self).cnts.sm_data_cnt == old(self).cnts.sm_data_cnt,
            r is Ok && sent && old(self).cnts.ms_spontaneous_data_cnt + 1 == MAX_SUM_CNT ==> r->Ok_0 is Some
                && r->Ok_0->Some_0.caller == 2
                && r->Ok_0->Some_0.ms_spontaneous_data_cnt == MAX_SUM_CNT
                && r->Ok_0->Some_0.sm_data_cnt == old(self).cnts.sm_data_cnt
                && r->Ok_0->Some_0.ms_spontaneous_data_err_cnt == old(self).cnts.ms_spontaneous_data_err_cnt
                && final(self).cnts == MasterCnts::zero(),
            r is Ok ==> final(self).state == old(self).state && final(self).data_from_slave == old(self).data_from_slave,
    {
        if sent {
            if self.data_from_master == u32::MAX {
                return Err(KnockComeFault::CounterOverflow);
            }
            self.data_from_master = self.data_from_master + DATA_FIRST_AND_INC;
            self.cnts.ms_spontaneous_data_cnt = self.cnts.ms_spontaneous_data_cnt + 1;
            update_master_view_fairness_cnts(&mut self.cnts);
            if self.cnts.ms_spontaneous_data_cnt as u64 == MAX_SUM_CNT {
                Ok(Some(print_and_clear_master_cnts(2, &mut self.cnts)))
            } else {
                Ok(None)
            }
        } else {
            if self.cnts.ms_spontaneous_data_err_cnt == u32::MAX {
                return Err(KnockComeFault::CounterOverflow);
            }
            self.cnts.ms_spontaneous_data_err_cnt = self.cnts.ms_spontaneous_data_err_cnt + 1;
            Ok(None)
        }
    }
}

} // verus!
