//! Laws that tie the master's and the slave's steps together: the two data
//! streams stay in step as long as no message is lost, so the sequence
//! checks on either side never fire, and a knock-come handshake brings both
//! sides back to their ready states.
use vstd::prelude::*;
use crate::config::{slave_receive_mode_spec, SlaveReceiveT, TaskSemantics};
use crate::master::MasterTask;
use crate::counters::MasterReport;
use crate::protocol::{KnockComeFault, KnockComeState, Message};
use crate::slave::SlaveTask;

verus! {

/// The two data streams are in step: the slave last received the value just
/// before the one the master sends next, and the master last received the
/// value just before the one the slave sends next.
pub open spec fn streams_in_step(m: MasterTask, s: SlaveTask) -> bool {
    &&& s.data_from_master + 1 == m.data_from_master
    &&& m.data_from_slave + 1 == s.data_from_slave
}

/// A master and a slave as the tasks start them are in step.
pub proof fn lemma_initial_tasks_in_step(semantics: TaskSemantics)
    ensures
        MasterTask::initial(semantics).wf(),
        SlaveTask::initial(semantics).wf(),
        streams_in_step(MasterTask::initial(semantics), SlaveTask::initial(semantics)),
{
}

/// Spontaneous data that the master sends, delivered to a slave in step with
/// it, never trips the slave's sequence check, in its outer select or in its
/// nested one; once the send is counted on both sides, they are still in step.
pub proof fn lemma_spontaneous_delivery_keeps_step(m: MasterTask, s: SlaveTask)
    requires
        m.wf(),
        s.wf(),
        streams_in_step(m, s),
    ensures
        !(s.message_outcome(Some(m.spontaneous_message_spec())) is Err
            && s.message_outcome(Some(m.spontaneous_message_spec()))->Err_0 is SequenceGap),
        !(s.nested_message_outcome(Some(m.spontaneous_message_spec())) is Err
            && s.nested_message_outcome(Some(m.spontaneous_message_spec()))->Err_0 is SequenceGap),
        m.spontaneous_outcome(true) is Ok && s.message_outcome(Some(m.spontaneous_message_spec())) is Ok
            ==> streams_in_step(
                m.spontaneous_outcome(true)->Ok_0.0,
                s.message_outcome(Some(m.spontaneous_message_spec()))->Ok_0.0,
            ),
        m.spontaneous_outcome(true) is Ok && s.nested_message_outcome(Some(m.spontaneous_message_spec())) is Ok
            ==> streams_in_step(
                m.spontaneous_outcome(true)->Ok_0.0,
                s.nested_message_outcome(Some(m.spontaneous_message_spec()))->Ok_0.0,
            ),
{
}

/// The data the slave sends on `Come`, delivered to a master in step with it
/// that waits for it, is always accepted; once the slave counts the send,
/// both are ready and still in step.
pub proof fn lemma_slave_data_delivery_keeps_step(m: MasterTask, s: SlaveTask)
    requires
        m.wf(),
        s.wf(),
        m.state == KnockComeState::MasterSentCome,
        s.state == KnockComeState::SlaveSentKnock,
        streams_in_step(m, s),
    ensures
        s.come_outcome() is Ok,
        s.come_outcome()->Ok_0.1 == Some(Message::SlaveData { val: s.data_from_slave }),
        m.reply_outcome(s.come_outcome()->Ok_0.1) is Ok,
        m.reply_outcome(s.come_outcome()->Ok_0.1)->Ok_0.0.is_ready(),
        s.come_outcome()->Ok_0.0.data_sent_outcome() is Ok
            ==> s.come_outcome()->Ok_0.0.data_sent_outcome()->Ok_0.is_ready()
                && streams_in_step(
                m.reply_outcome(s.come_outcome()->Ok_0.1)->Ok_0.0,
                s.come_outcome()->Ok_0.0.data_sent_outcome()->Ok_0,
            ),
{
}

/// A whole knock-come handshake between a ready master and a ready slave in
/// step: the slave knocks, the master takes the knock and sends `Come`, the
/// slave takes `Come` where its semantics has it wait (outer or nested
/// select) and sends its data, which the master accepts.  Unless a counter of
/// the slave would pass its limit, no step faults, both sides end ready and
/// still in step, and the master's copy of the slave's stream moved on by one.
pub proof fn lemma_handshake_completes(m: MasterTask, s: SlaveTask)
    requires
        m.wf(),
        s.wf(),
        m.is_ready(),
        s.is_ready(),
        m.semantics == s.semantics,
        streams_in_step(m, s),
    ensures
        ({
            let m1 = m.knocked().come_sent();
            let s1_or = s.knock_outcome();
            s1_or is Ok ==> {
                let s1 = s1_or->Ok_0.0;
                let got_come = if slave_receive_mode_spec(s1.semantics) == SlaveReceiveT::OneSelect {
                    s1.message_outcome(Some(Message::Come))
                } else {
                    s1.nested_message_outcome(Some(Message::Come))
                };
                &&& got_come is Ok
                &&& got_come->Ok_0.1 == Some(Message::SlaveData { val: s.data_from_slave })
                &&& m1.reply_outcome(got_come->Ok_0.1) is Ok
                &&& m1.reply_outcome(got_come->Ok_0.1)->Ok_0.0.is_ready()
                &&& m1.reply_outcome(got_come->Ok_0.1)->Ok_0.0.data_from_slave == s.data_from_slave
                &&& got_come->Ok_0.0.data_sent_outcome() is Ok ==> {
                    &&& got_come->Ok_0.0.data_sent_outcome()->Ok_0.is_ready()
                    &&& streams_in_step(
                        m1.reply_outcome(got_come->Ok_0.1)->Ok_0.0,
                        got_come->Ok_0.0.data_sent_outcome()->Ok_0,
                    )
                }
            }
        }),
{
    let m1 = m.knocked().come_sent();
    assert(m1.wf());
    let s1_or = s.knock_outcome();
    if s1_or is Ok {
        let s1 = s1_or->Ok_0.0;
        assert(s1.wf());
        assert(s1.state == KnockComeState::SlaveSentKnock);
        lemma_slave_data_delivery_keeps_step(m1, s1);
    }
}

/// Between handshakes the master has answered every knock it took with
/// `Come` and received the data for every `Come`: the three counts agree.
pub proof fn lemma_master_counts_agree_when_ready(m: MasterTask)
    requires
        m.wf(),
        m.is_ready(),
    ensures
        m.cnts.sm_knock_cnt == m.cnts.ms_come_cnt,
        m.cnts.ms_come_cnt == m.cnts.sm_data_cnt as u64,
{
}

/// Once the slave has knocked, it stays out of its ready state, and so its
/// timer cannot knock again, until `Come` arrived and its data went out:
/// every message it accepts while waiting leaves it waiting for `Come` or
/// holding `Come`.
pub proof fn lemma_one_knock_outstanding(s: SlaveTask, msg: Option<Message>)
    requires
        s.wf(),
        s.state == KnockComeState::SlaveSentKnock,
    ensures
        s.message_outcome(msg) is Ok ==> !s.message_outcome(msg)->Ok_0.0.is_ready(),
        s.nested_message_outcome(msg) is Ok ==> !s.nested_message_outcome(msg)->Ok_0.0.is_ready(),
        s.message_outcome(msg) is Ok && s.message_outcome(msg)->Ok_0.1 is None
            ==> s.message_outcome(msg)->Ok_0.0.state == KnockComeState::SlaveSentKnock,
        s.nested_message_outcome(msg) is Ok && s.nested_message_outcome(msg)->Ok_0.1 is None
            ==> s.nested_message_outcome(msg)->Ok_0.0.state == KnockComeState::SlaveSentKnock,
{
}

/// The master's check of the slave's data: waiting for the reply to `Come`,
/// it accepts the data value `val` exactly when it is one more than the last
/// value it received; any other value, a repeated or stale one among them,
/// is a sequence gap that names the value expected and the value got.  An
/// accepted value becomes the last value received, and the master is ready.
pub proof fn lemma_master_reply_checks_sequence(m: MasterTask, val: u32)
    requires
        m.wf(),
        m.state == KnockComeState::MasterSentCome,
    ensures
        m.reply_outcome(Some(Message::SlaveData { val })) is Ok <==> val == m.data_from_slave + 1,
        val != m.data_from_slave + 1 ==> m.reply_outcome(Some(Message::SlaveData { val }))
            == Err::<(MasterTask, Option<MasterReport>), KnockComeFault>(
            KnockComeFault::SequenceGap { expected: (m.data_from_slave + 1) as u64, got: val },
        ),
        val == m.data_from_slave + 1 ==> m.reply_outcome(Some(Message::SlaveData { val }))->Ok_0.0.data_from_slave == val
            && m.reply_outcome(Some(Message::SlaveData { val }))->Ok_0.0.is_ready(),
{
}

/// The slave's check of spontaneous data, in its outer select and in the
/// nested one: it accepts the value `val` exactly when it is one more than
/// the last value it received (and its counter has room); any other value,
/// a repeated or stale one among them, is a sequence gap that names the
/// value expected and the value got.  An accepted value becomes the last
/// value received and is counted in the counter of the select that took it.
pub proof fn lemma_slave_spontaneous_checks_sequence(s: SlaveTask, val: u32)
    requires
        s.wf(),
    ensures
        s.message_outcome(Some(Message::SpontaneousData { val })) is Ok ==> val == s.data_from_master + 1,
        s.nested_message_outcome(Some(Message::SpontaneousData { val })) is Ok ==> val == s.data_from_master + 1,
        val != s.data_from_master + 1 ==> s.message_outcome(Some(Message::SpontaneousData { val }))
            == Err::<(SlaveTask, Option<Message>), KnockComeFault>(
            KnockComeFault::SequenceGap { expected: (s.data_from_master + 1) as u64, got: val },
        ),
        val != s.data_from_master + 1 ==> s.nested_message_outcome(Some(Message::SpontaneousData { val }))
            == Err::<(SlaveTask, Option<Message>), KnockComeFault>(
            KnockComeFault::SequenceGap { expected: (s.data_from_master + 1) as u64, got: val },
        ),
        val == s.data_from_master + 1 && s.cnts.ms_spontaneous_data_cnt_1 < u64::MAX ==> ({
            let o = s.message_outcome(Some(Message::SpontaneousData { val }));
            &&& o is Ok
            &&& o->Ok_0.1 is None
            &&& o->Ok_0.0.data_from_master == val
            &&& o->Ok_0.0.cnts.ms_spontaneous_data_cnt_1 == s.cnts.ms_spontaneous_data_cnt_1 + 1
            &&& o->Ok_0.0.cnts.ms_spontaneous_data_cnt_2 == s.cnts.ms_spontaneous_data_cnt_2
        }),
        val == s.data_from_master + 1 && s.cnts.ms_spontaneous_data_cnt_2 < u64::MAX ==> ({
            let o = s.nested_message_outcome(Some(Message::SpontaneousData { val }));
            &&& o is Ok
            &&& o->Ok_0.1 is None
            &&& o->Ok_0.0.data_from_master == val
            &&& o->Ok_0.0.cnts.ms_spontaneous_data_cnt_2 == s.cnts.ms_spontaneous_data_cnt_2 + 1
            &&& o->Ok_0.0.cnts.ms_spontaneous_data_cnt_1 == s.cnts.ms_spontaneous_data_cnt_1
        }),
{
}

} // verus!
