//! The decisions of the slave task: it knocks when its local timer fires and
//! it is ready, takes spontaneous data from the master at any time, and sends
//! its own data when `Come` arrives.  The task itself (channels, timer,
//! printing) runs around these steps.
use vstd::prelude::*;
use crate::config::{
    slave_receive_mode, slave_receive_mode_spec, SlaveReceiveT, TaskSemantics, DATA_FIRST_AND_INC,
    MAX_SUM_CNT,
};
use crate::counters::{print_and_clear_slave_cnts, slave_report_of, SlaveCnts, SlaveReport};
use crate::protocol::{
    is_slave_state, slave_set_knock_come_state, KnockComeFault, KnockComeState, Message,
};

verus! {

/// The state of the slave task between two events.
#[derive(Clone, Copy, Debug, PartialEq, Eq, Structural)]
pub struct SlaveTask {
    /// The semantics the task runs with.
    pub semantics: TaskSemantics,
    /// The slave's phase of the handshake.
    pub state: KnockComeState,
    /// The value of the next data to send to the master.
    pub data_from_slave: u32,
    /// The last spontaneous value received from the master (0 before the first).
    pub data_from_master: u32,
    /// The counters since the last report.
    pub cnts: SlaveCnts,
}

/// The outcome of a slave step on a message: the next state and the data to
/// send to the master, if any, or the fault that stops the task.
pub type SlaveMessageOutcome = Result<(SlaveTask, Option<Message>), KnockComeFault>;

/// The outcome of a knock: the next state and the report that is due, if any,
/// or the fault that stops the task.
pub type SlaveKnockOutcome = Result<(SlaveTask, Option<SlaveReport>), KnockComeFault>;

impl SlaveTask {
    /// The invariant of the slave between events: it is in one of its own
    /// states; the knock counter stays below `MAX_SUM_CNT`; it got no more
    /// `Come`s than it knocked, and sent no more data than it got `Come`s
    /// (one each may be left over from before the last report).
    pub open spec fn wf(self) -> bool {
        let c = self.cnts;
        &&& is_slave_state(self.state)
        &&& c.sm_knock_cnt < MAX_SUM_CNT
        &&& self.state == KnockComeState::SlaveSentKnock ==> c.ms_come_cnt <= c.sm_knock_cnt
        &&& self.state != KnockComeState::SlaveSentKnock ==> c.ms_come_cnt <= c.sm_knock_cnt + 1
        &&& self.state == KnockComeState::SlaveGotCome ==> c.sm_data_cnt < c.ms_come_cnt
        &&& self.state != KnockComeState::SlaveGotCome ==> c.sm_data_cnt <= c.ms_come_cnt
    }

    /// Whether the slave is between handshakes, so that its timer may knock.
    pub open spec fn is_ready(self) -> bool {
        self.state == KnockComeState::SlaveSentDataNowReady
    }

    /// The slave as the task starts it.
    pub open spec fn initial(semantics: TaskSemantics) -> SlaveTask {
        SlaveTask {
            semantics: semantics,
            state: KnockComeState::SlaveSentDataNowReady,
            data_from_slave: DATA_FIRST_AND_INC,
            data_from_master: 0,
            cnts: SlaveCnts::zero(),
        }
    }

    /// The outcome of spontaneous data `val`, counted in the nested select's
    /// counter if `nested`, else in the outer one's: it must follow the last
    /// value received.
    pub open spec fn spontaneous_outcome(self, val: u32, nested: bool) -> Result<SlaveTask, KnockComeFault> {
        if val != self.data_from_master + DATA_FIRST_AND_INC {
            Err(KnockComeFault::SequenceGap {
                expected: (self.data_from_master + DATA_FIRST_AND_INC) as u64,
                got: val,
            })
        } else if nested {
            if self.cnts.ms_spontaneous_data_cnt_2 == u64::MAX {
                Err(KnockComeFault::CounterOverflow)
            } else {
                Ok(SlaveTask {
                    data_from_master: val,
                    cnts: SlaveCnts {
                        ms_spontaneous_data_cnt_2: (self.cnts.ms_spontaneous_data_cnt_2 + 1) as u64,
                        ..self.cnts
                    },
                    ..self
                })
            }
        } else {
            if self.cnts.ms_spontaneous_data_cnt_1 == u64::MAX {
                Err(KnockComeFault::CounterOverflow)
            } else {
                Ok(SlaveTask {
                    data_from_master: val,
                    cnts: SlaveCnts {
                        ms_spontaneous_data_cnt_1: (self.cnts.ms_spontaneous_data_cnt_1 + 1) as u64,
                        ..self.cnts
                    },
                    ..self
                })
            }
        }
    }

    /// The outcome of `Come`: only after a knock; the slave counts it, moves
    /// to `SlaveGotCome`, and sends its next data value.
    pub open spec fn come_outcome(self) -> SlaveMessageOutcome {
        if self.state != KnockComeState::SlaveSentKnock {
            Err(KnockComeFault::InvalidTransition)
        } else {
            Ok((
                SlaveTask {
                    state: KnockComeState::SlaveGotCome,
                    cnts: SlaveCnts { ms_come_cnt: (self.cnts.ms_come_cnt + 1) as u64, ..self.cnts },
                    ..self
                },
                Some(Message::SlaveData { val: self.data_from_slave }),
            ))
        }
    }

    /// The outcome of a message (`None`: the channel closed) in the slave's
    /// outer select.  `Come` belongs there only when the slave waits for it
    /// in one select.
    pub open spec fn message_outcome(self, msg: Option<Message>) -> SlaveMessageOutcome {
        match msg {
            None => Err(KnockComeFault::ChannelClosed),
            Some(Message::SpontaneousData { val }) => match self.spontaneous_outcome(val, false) {
                Ok(s) => Ok((s, None)),
                Err(e) => Err(e),
            },
            Some(Message::Come) => {
                if slave_receive_mode_spec(self.semantics) == SlaveReceiveT::OneSelect {
                    self.come_outcome()
                } else {
                    Err(KnockComeFault::ComeNotExpected)
                }
            },
            Some(Message::SlaveData { .. }) => Err(KnockComeFault::UnexpectedPacket),
        }
    }

    /// The outcome of a message (`None`: the channel closed) in the nested
    /// select where the slave waits for `Come` after knocking.
    pub open spec fn nested_message_outcome(self, msg: Option<Message>) -> SlaveMessageOutcome {
        match msg {
            None => Err(KnockComeFault::ChannelClosed),
            Some(Message::SpontaneousData { val }) => match self.spontaneous_outcome(val, true) {
                Ok(s) => Ok((s, None)),
                Err(e) => Err(e),
            },
            Some(Message::Come) => self.come_outcome(),
            Some(Message::SlaveData { .. }) => Err(KnockComeFault::UnexpectedPacket),
        }
    }

    /// The outcome of the slave's data having gone out: its stream moves on
    /// by one, it counts the data, and it is ready again.
    pub open spec fn data_sent_outcome(self) -> Result<SlaveTask, KnockComeFault> {
        if self.data_from_slave == u32::MAX {
            Err(KnockComeFault::CounterOverflow)
        } else {
            Ok(SlaveTask {
                state: KnockComeState::SlaveSentDataNowReady,
                data_from_slave: (self.data_from_slave + DATA_FIRST_AND_INC) as u32,
                cnts: SlaveCnts { sm_data_cnt: (self.cnts.sm_data_cnt + 1) as u64, ..self.cnts },
                ..self
            })
        }
    }

    /// The outcome of a knock having gone out: the slave counts it, moves to
    /// `SlaveSentKnock`, and reports (as caller 21) each time the knock count
    /// reaches a multiple of `MAX_SUM_CNT`.
    pub open spec fn knock_outcome(self) -> SlaveKnockOutcome {
        let knocked = SlaveTask {
            state: KnockComeState::SlaveSentKnock,
            cnts: SlaveCnts { sm_knock_cnt: (self.cnts.sm_knock_cnt + 1) as u64, ..self.cnts },
            ..self
        };
        if knocked.cnts.sm_knock_cnt % MAX_SUM_CNT == 0 {
            if self.cnts.ms_spontaneous_data_cnt_1 + self.cnts.ms_spontaneous_data_cnt_2 > u64::MAX {
                Err(KnockComeFault::CounterOverflow)
            } else {
                Ok((
                    SlaveTask { cnts: SlaveCnts::zero(), ..knocked },
                    Some(slave_report_of(21, knocked.cnts)),
                ))
            }
        } else {
            Ok((knocked, None))
        }
    }

    /// The slave as the task starts it: ready, its stream at the first value,
    /// nothing received from the master yet, all counters zero.
    pub fn new(semantics: TaskSemantics) -> (s: SlaveTask)
        ensures
            s == SlaveTask::initial(semantics),
            s.wf(),
    {
        SlaveTask {
            semantics: semantics,
            state: KnockComeState::SlaveSentDataNowReady,
            data_from_slave: DATA_FIRST_AND_INC,
            data_from_master: 0,
            cnts: SlaveCnts::new(),
        }
    }

    /// How the slave waits for `Come` under its semantics.
    pub fn receive_mode(&self) -> (mode: SlaveReceiveT)
        ensures
            mode == slave_receive_mode_spec(self.semantics),
    {
        slave_receive_mode(self.semantics)
    }

    /// Whether the local timer may fire: only while the slave is ready.
    pub fn timer_enabled(&self) -> (enabled: bool)
        ensures
            enabled == self.is_ready(),
    {
        self.state == KnockComeState::SlaveSentDataNowReady
    }

    /// Checks and counts spontaneous data `val`.
    fn take_spontaneous(&mut self, val: u32, nested: bool) -> (r: Result<(), KnockComeFault>)
        requires
            old(self).wf(),
        ensures
            final(self).wf(),
            r is Ok ==> old(self).spontaneous_outcome(val, nested) == Ok::<SlaveTask, KnockComeFault>(*final(self)),
            r is Err ==> old(self).spontaneous_outcome(val, nested) == Err::<SlaveTask, KnockComeFault>(r->Err_0),
            r is Err ==> *final(self) == *old(self),
            r is Ok ==> val == old(self).data_from_master + 1 && final(self).data_from_master == val,
            val != old(self).data_from_master + 1 ==> r == Err::<(), KnockComeFault>(
                KnockComeFault::SequenceGap { expected: (old(self).data_from_master + 1) as u64, got: val },
            ),
            r is Ok && !nested ==> final(self).cnts.ms_spontaneous_data_cnt_1 == old(self).cnts.ms_spontaneous_data_cnt_1 + 1
                && final(self).cnts.ms_spontaneous_data_cnt_2 == old(self).cnts.ms_spontaneous_data_cnt_2,
            r is Ok && nested ==> final(self).cnts.ms_spontaneous_data_cnt_2 == old(self).cnts.ms_spontaneous_data_cnt_2 + 1
                && final(self).cnts.ms_spontaneous_data_cnt_1 == old(self).cnts.ms_spontaneous_data_cnt_1,
    {
        let expected: u64 = self.data_from_master as u64 + 1;
        if val as u64 != expected {
            return Err(KnockComeFault::SequenceGap { expected: expected, got: val });
        }
        if nested {
            if self.cnts.ms_spontaneous_data_cnt_2 == u64::MAX {
                return Err(KnockComeFault::CounterOverflow);
            }
            self.data_from_master = val;
            self.cnts.ms_spontaneous_data_cnt_2 = self.cnts.ms_spontaneous_data_cnt_2 + 1;
        } else {
            if self.cnts.ms_spontaneous_data_cnt_1 == u64::MAX {
                return Err(KnockComeFault::CounterOverflow);
            }
            self.data_from_master = val;
            self.cnts.ms_spontaneous_data_cnt_1 = self.cnts.ms_spontaneous_data_cnt_1 + 1;
        }
        Ok(())
    }

    /// Takes `Come`: returns the data message to send.
    fn take_come(&mut self) -> (r: Result<Option<Message>, KnockComeFault>)
        requires
            old(self).wf(),
        ensures
            final(self).wf(),
            r is Ok ==> old(self).come_outcome() == Ok::<(SlaveTask, Option<Message>), KnockComeFault>((*final(self), r->Ok_0)),
            r is Err ==> old(self).come_outcome() == Err::<(SlaveTask, Option<Message>), KnockComeFault>(r->Err_0),
            r is Err ==> *final(self) == *old(self),
    {
        if self.state != KnockComeState::SlaveSentKnock {
            return Err(KnockComeFault::InvalidTransition);
        }
        self.cnts.ms_come_cnt = self.cnts.ms_come_cnt + 1;
        self.state = slave_set_knock_come_state(self.state, KnockComeState::SlaveGotCome);
        Ok(Some(Message::SlaveData { val: self.data_from_slave }))
    }

    /// A message arrived in the slave's outer select (`None`: the channel
    /// closed).  On success it returns the data to send to the master, if
    /// any (then `on_data_sent` follows the send); on a fault the slave is
    /// left as it was.
    pub fn on_master_message(&mut self, msg: Option<Message>) -> (r: Result<Option<Message>, KnockComeFault>)
        requires
            old(self).wf(),
        ensures
            final(self).wf(),
            r is Ok ==> old(self).message_outcome(msg) == Ok::<(SlaveTask, Option<Message>), KnockComeFault>((*final(self), r->Ok_0)),
            r is Err ==> old(self).message_outcome(msg) == Err::<(SlaveTask, Option<Message>), KnockComeFault>(r->Err_0),
            r is Err ==> *final(self) == *old(self),
            msg matches Some(Message::SpontaneousData { val }) ==> (val != old(self).data_from_master + 1
                ==> r == Err::<Option<Message>, KnockComeFault>(
                KnockComeFault::SequenceGap { expected: (old(self).data_from_master + 1) as u64, got: val },
            )),
            msg matches Some(Message::SpontaneousData { val }) ==> (r is Ok ==> val == old(self).data_from_master + 1
                && final(self).data_from_master == val && r->Ok_0 is None && final(self).state == old(self).state
                && final(self).data_from_slave == old(self).data_from_slave
                && final(self).cnts.sm_knock_cnt == old(self).cnts.sm_knock_cnt
                && final(self).cnts.ms_come_cnt == old(self).cnts.ms_come_cnt
                && final(self).cnts.sm_data_cnt == old(self).cnts.sm_data_cnt
                && final(self).cnts.ms_spontaneous_data_cnt_1 == old(self).cnts.ms_spontaneous_data_cnt_1 + 1
                && final(self).cnts.ms_spontaneous_data_cnt_2 == old(self).cnts.ms_spontaneous_data_cnt_2),
            msg is None ==> r == Err::<Option<Message>, KnockComeFault>(KnockComeFault::ChannelClosed),
            msg matches Some(Message::SlaveData { .. }) ==> r == Err::<Option<Message>, KnockComeFault>(KnockComeFault::UnexpectedPacket),
            msg == Some(Message::Come) && r is Ok ==> old(self).state == KnockComeState::SlaveSentKnock
                && r->Ok_0 == Some(Message::SlaveData { val: old(self).data_from_slave })
                && final(self).state == KnockComeState::SlaveGotCome
                && final(self).cnts.ms_come_cnt == old(self).cnts.ms_come_cnt + 1
                && final(self).data_from_slave == old(self).data_from_slave
                && final(self).data_from_master == old(self).data_from_master,
            msg == Some(Message::Come) && old(self).state != KnockComeState::SlaveSentKnock
                && slave_receive_mode_spec(old(self).semantics) == SlaveReceiveT::OneSelect
                ==> r == Err::<Option<Message>, KnockComeFault>(KnockComeFault::InvalidTransition),
            msg == Some(Message::Come) && slave_receive_mode_spec(old(self).semantics) == SlaveReceiveT::SelectPlusNestedSelect
                ==> r == Err::<Option<Message>, KnockComeFault>(KnockComeFault::ComeNotExpected),
    {
        match msg {
            None => Err(KnockComeFault::ChannelClosed),
            Some(Message::SpontaneousData { val }) => {
                match self.take_spontaneous(val, false) {
                    Ok(()) => Ok(None),
                    Err(e) => Err(e),
                }
            },
            Some(Message::Come) => {
                match slave_receive_mode(self.semantics) {
                    SlaveReceiveT::OneSelect => self.take_come(),
                    SlaveReceiveT::SelectPlusNestedSelect => Err(KnockComeFault::ComeNotExpected),
                }
            },
            Some(Message::SlaveData { .. }) => Err(KnockComeFault::UnexpectedPacket),
        }
    }

    /// A message arrived in the nested select where the slave waits for
    /// `Come` after knocking (`None`: the channel closed).  On success it
    /// returns the data to send to the master once `Come` arrived (then
    /// `on_data_sent` follows the send, and the nested select ends); on a
    /// fault the slave is left as it was.
    pub fn on_nested_message(&mut self, msg: Option<Message>) -> (r: Result<Option<Message>, KnockComeFault>)
        requires
            old(self).wf(),
            old(self).state == KnockComeState::SlaveSentKnock,
        ensures
            final(self).wf(),
            r is Ok ==> old(self).nested_message_outcome(msg) == Ok::<(SlaveTask, Option<Message>), KnockComeFault>((*final(self), r->Ok_0)),
            r is Err ==> old(self).nested_message_outcome(msg) == Err::<(SlaveTask, Option<Message>), KnockComeFault>(r->Err_0),
            r is Err ==> *final(self) == *old(self),
            msg matches Some(Message::SpontaneousData { val }) ==> (val != old(self).data_from_master + 1
                ==> r == Err::<Option<Message>, KnockComeFault>(
                KnockComeFault::SequenceGap { expected: (old(self).data_from_master + 1) as u64, got: val },
            )),
            msg matches Some(Message::SpontaneousData { val }) ==> (r is Ok ==> val == old(self).data_from_master + 1
                && final(self).data_from_master == val && r->Ok_0 is None && final(self).state == old(self).state
                && final(self).data_from_slave == old(self).data_from_slave
                && final(self).cnts.sm_knock_cnt == old(self).cnts.sm_knock_cnt
                && final(self).cnts.ms_come_cnt == old(self).cnts.ms_come_cnt
                && final(self).cnts.sm_data_cnt == old(self).cnts.sm_data_cnt
                && final(self).cnts.ms_spontaneous_data_cnt_2 == old(self).cnts.ms_spontaneous_data_cnt_2 + 1
                && final(self).cnts.ms_spontaneous_data_cnt_1 == old(self).cnts.ms_spontaneous_data_cnt_1),
            msg is None ==> r == Err::<Option<Message>, KnockComeFault>(KnockComeFault::ChannelClosed),
            msg matches Some(Message::SlaveData { .. }) ==> r == Err::<Option<Message>, KnockComeFault>(KnockComeFault::UnexpectedPacket),
            msg == Some(Message::Come) && r is Ok ==> old(self).state == KnockComeState::SlaveSentKnock
                && r->Ok_0 == Some(Message::SlaveData { val: old(self).data_from_slave })
                && final(self).state == KnockComeState::SlaveGotCome
                && final(self).cnts.ms_come_cnt == old(self).cnts.ms_come_cnt + 1
                && final(self).data_from_slave == old(self).data_from_slave
                && final(self).data_from_master == old(self).data_from_master,
            msg == Some(Message::Come) ==> r is Ok,
    {
        match msg {
            None => Err(KnockComeFault::ChannelClosed),
            Some(Message::SpontaneousData { val }) => {
                match self.take_spontaneous(val, true) {
                    Ok(()) => Ok(None),
                    Err(e) => Err(e),
                }
            },
            Some(Message::Come) => self.take_come(),
            Some(Message::SlaveData { .. }) => Err(KnockComeFault::UnexpectedPacket),
        }
    }

    /// The slave's data went out after `Come`: its stream moves on by one, it
    /// counts the data, and it is ready again.  On a fault it is left as it was.
    pub fn on_data_sent(&mut self) -> (r: Result<(), KnockComeFault>)
        requires
            old(self).wf(),
            old(self).state == KnockComeState::SlaveGotCome,
        ensures
            final(self).wf(),
            r is Ok ==> old(self).data_sent_outcome() == Ok::<SlaveTask, KnockComeFault>(*final(self)),
            r is Err ==> old(self).data_sent_outcome() == Err::<SlaveTask, KnockComeFault>(r->Err_0),
            r is Err ==> *final(self) == *old(self),
            r is Err <==> old(self).data_from_slave == u32::MAX,
            r is Err ==> r->Err_0 == KnockComeFault::CounterOverflow,
            r is Ok ==> final(self).data_from_slave == old(self).data_from_slave + 1
                && final(self).is_ready()
                && final(self).cnts.sm_data_cnt == old(self).cnts.sm_data_cnt + 1
                && final(self).cnts.ms_come_cnt == old(self).cnts.ms_come_cnt
                && final(self).cnts.sm_knock_cnt == old(self).cnts.sm_knock_cnt
                && final(self).data_from_master == old(self).data_from_master,
    {
        if self.data_from_slave == u32::MAX {
            return Err(KnockComeFault::CounterOverflow);
        }
        self.data_from_slave = self.data_from_slave + DATA_FIRST_AND_INC;
        self.state = slave_set_knock_come_state(self.state, KnockComeState::SlaveSentDataNowReady);
        self.cnts.sm_data_cnt = self.cnts.sm_data_cnt + 1;
        Ok(())
    }

    /// The knock went out after the local timer fired while the slave was
    /// ready.  On success it returns the report that is due, if any; on a
    /// fault the slave is left as it was.
    pub fn on_knock_sent(&mut self) -> (r: Result<Option<SlaveReport>, KnockComeFault>)
        requires
            old(self).wf(),
            old(self).is_ready(),
        ensures
            final(self).wf(),
            r is Ok ==> old(self).knock_outcome() == Ok::<(SlaveTask, Option<SlaveReport>), KnockComeFault>((*final(self), r->Ok_0)),
            r is Err ==> old(self).knock_outcome() == Err::<(SlaveTask, Option<SlaveReport>), KnockComeFault>(r->Err_0),
            r is Err ==> *final(self) == *old(self),
            r is Err <==> (old(self).cnts.sm_knock_cnt + 1) % (MAX_SUM_CNT as int) == 0
                && old(self).cnts.ms_spontaneous_data_cnt_1 + old(self).cnts.ms_spontaneous_data_cnt_2 > u64::MAX,
            r is Err ==> r->Err_0 == KnockComeFault::CounterOverflow,
            r is Ok ==> final(self).state == KnockComeState::SlaveSentKnock
                && final(self).data_from_slave == old(self).data_from_slave
                && final(self).data_from_master == old(self).data_from_master,
            r is Ok && (old(self).cnts.sm_knock_cnt + 1) % (MAX_SUM_CNT as int) != 0 ==> r->Ok_0 is None
                && final(self).cnts.sm_knock_cnt == old(self).cnts.sm_knock_cnt + 1
                && final(self).cnts.ms_come_cnt == old(self).cnts.ms_come_cnt
                && final(self).cnts.sm_data_cnt == old(self).cnts.sm_data_cnt
                && final(self).cnts.ms_spontaneous_data_cnt_1 == old(self).cnts.ms_spontaneous_data_cnt_1
                && final(self).cnts.ms_spontaneous_data_cnt_2 == old(self).cnts.ms_spontaneous_data_cnt_2,
            r is Ok && (old(self).cnts.sm_knock_cnt + 1) % (MAX_SUM_CNT as int) == 0 ==> r->Ok_0 is Some
                && r->Ok_0->Some_0.caller == 21
                && r->Ok_0->Some_0.sm_knock_cnt == old(self).cnts.sm_knock_cnt + 1
                && r->Ok_0->Some_0.ms_come_cnt == old(self).cnts.ms_come_cnt
                && r->Ok_0->Some_0.sm_data_cnt == old(self).cnts.sm_data_cnt
                && r->Ok_0->Some_0.ms_spontaneous_data_cnt_1 == old(self).cnts.ms_spontaneous_data_cnt_1
                && r->Ok_0->Some_0.ms_spontaneous_data_cnt_2 == old(self).cnts.ms_spontaneous_data_cnt_2
                && r->Ok_0->Some_0.ms_spontaneous_data_sum
                    == old(self).cnts.ms_spontaneous_data_cnt_1 + old(self).cnts.ms_spontaneous_data_cnt_2
                && final(self).cnts == SlaveCnts::zero(),
    {
        let knocks: u64 = self.cnts.sm_knock_cnt + 1;
        if knocks % MAX_SUM_CNT == 0 {
            if self.cnts.ms_spontaneous_data_cnt_1 > u64::MAX - self.cnts.ms_spontaneous_data_cnt_2 {
                return Err(KnockComeFault::CounterOverflow);
            }
            self.cnts.sm_knock_cnt = knocks;
            self.state = slave_set_knock_come_state(self.state, KnockComeState::SlaveSentKnock);
            Ok(Some(print_and_clear_slave_cnts(21, &mut self.cnts)))
        } else {
            self.cnts.sm_knock_cnt = knocks;
            self.state = slave_set_knock_come_state(self.state, KnockComeState::SlaveSentKnock);
            Ok(None)
        }
    }
}

} // verus!
