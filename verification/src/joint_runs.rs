//! Joint runs of a master and a slave joined by the program's channels: the
//! knock goes through a buffer of one, `Come`, the slave's data and the
//! spontaneous data through rendezvous channels that lose nothing.  Along
//! every such run both data streams stay in step, so neither side's sequence
//! check ever fires: the only fault left is a counter at its type's limit.
use vstd::prelude::*;
use crate::config::{slave_receive_mode_spec, SlaveReceiveT, TaskSemantics};
use crate::laws::streams_in_step;
use crate::master::MasterTask;
use crate::protocol::{KnockComeFault, KnockComeState, Message};
use crate::runs::{lemma_run_prefix, run};
use crate::slave::{SlaveMessageOutcome, SlaveTask};

verus! {

/// A master and a slave, side by side.
#[derive(Clone, Copy, Debug, PartialEq, Eq, Structural)]
pub struct TaskPair {
    pub master: MasterTask,
    pub slave: SlaveTask,
}

/// What can happen next between the two tasks.
#[derive(Clone, Copy, Debug, PartialEq, Eq, Structural)]
pub enum JointEvent {
    /// The slave's timer fires while it is ready and its knock goes into the
    /// knock channel.
    SlaveKnocks,
    /// The master takes the knock waiting in the knock channel.
    MasterTakesKnock,
    /// The master's `Come` reaches the slave.
    ComeDelivered,
    /// The slave's data reaches the master.
    DataDelivered,
    /// The master's timer fires and its spontaneous data reaches the slave.
    SpontaneousDelivered,
    /// The master's timer fires and its spontaneous send fails.
    SpontaneousFailed,
}

/// Why a joint step does not happen.
#[derive(Clone, Copy, Debug, PartialEq, Eq, Structural)]
pub enum JointStop {
    /// The event cannot happen in the tasks' states.
    NotEnabled,
    /// One of the tasks faults.
    Fault(KnockComeFault),
}

/// The slave's outcome on a message from the master: in its nested select
/// when it has knocked and its semantics has it wait there, else in its
/// outer select.
pub open spec fn slave_receives(s: SlaveTask, msg: Message) -> SlaveMessageOutcome {
    if s.state == KnockComeState::SlaveSentKnock
        && slave_receive_mode_spec(s.semantics) == SlaveReceiveT::SelectPlusNestedSelect {
        s.nested_message_outcome(Some(msg))
    } else {
        s.message_outcome(Some(msg))
    }
}

/// One joint step: both tasks take their sides of the event through their
/// outcome functions.
pub open spec fn joint_step(p: TaskPair, e: JointEvent) -> Result<TaskPair, JointStop> {
    let m = p.master;
    let s = p.slave;
    match e {
        JointEvent::SlaveKnocks => {
            if s.is_ready() {
                match s.knock_outcome() {
                    Ok((s2, _)) => Ok(TaskPair { master: m, slave: s2 }),
                    Err(f) => Err(JointStop::Fault(f)),
                }
            } else {
                Err(JointStop::NotEnabled)
            }
        },
        JointEvent::MasterTakesKnock => {
            if m.is_ready() && s.state == KnockComeState::SlaveSentKnock {
                Ok(TaskPair { master: m.knocked(), slave: s })
            } else {
                Err(JointStop::NotEnabled)
            }
        },
        JointEvent::ComeDelivered => {
            if m.state == KnockComeState::MasterGotKnock {
                match slave_receives(s, Message::Come) {
                    Ok((s2, _)) => Ok(TaskPair { master: m.come_sent(), slave: s2 }),
                    Err(f) => Err(JointStop::Fault(f)),
                }
            } else {
                Err(JointStop::NotEnabled)
            }
        },
        JointEvent::DataDelivered => {
            if m.state == KnockComeState::MasterSentCome && s.state == KnockComeState::SlaveGotCome {
                match m.reply_outcome(Some(Message::SlaveData { val: s.data_from_slave })) {
                    Ok((m2, _)) => match s.data_sent_outcome() {
                        Ok(s2) => Ok(TaskPair { master: m2, slave: s2 }),
                        Err(f) => Err(JointStop::Fault(f)),
                    },
                    Err(f) => Err(JointStop::Fault(f)),
                }
            } else {
                Err(JointStop::NotEnabled)
            }
        },
        JointEvent::SpontaneousDelivered => {
            if m.is_ready() {
                match slave_receives(s, m.spontaneous_message_spec()) {
                    Ok((s2, _)) => match m.spontaneous_outcome(true) {
                        Ok((m2, _)) => Ok(TaskPair { master: m2, slave: s2 }),
                        Err(f) => Err(JointStop::Fault(f)),
                    },
                    Err(f) => Err(JointStop::Fault(f)),
                }
            } else {
                Err(JointStop::NotEnabled)
            }
        },
        JointEvent::SpontaneousFailed => {
            if m.is_ready() {
                match m.spontaneous_outcome(false) {
                    Ok((m2, _)) => Ok(TaskPair { master: m2, slave: s }),
                    Err(f) => Err(JointStop::Fault(f)),
                }
            } else {
                Err(JointStop::NotEnabled)
            }
        },
    }
}

/// `joint_step` as a value, for runs: a run goes on while steps happen.
pub open spec fn joint_step_fn() -> spec_fn(TaskPair, JointEvent) -> Option<(TaskPair, Seq<()>)> {
    |p: TaskPair, e: JointEvent| match joint_step(p, e) {
        Ok(p2) => Some((p2, Seq::<()>::empty())),
        Err(_) => None,
    }
}

/// A master and a slave as the program starts them.
pub open spec fn initial_pair(semantics: TaskSemantics) -> TaskPair {
    TaskPair { master: MasterTask::initial(semantics), slave: SlaveTask::initial(semantics) }
}

/// What holds of the two tasks along every joint run: both are well formed,
/// run the same semantics, have their streams in step, and stand in one of
/// the four joint phases of the handshake (both ready; knock waiting in the
/// channel; knock taken; `Come` delivered).
pub open spec fn joint_inv(p: TaskPair) -> bool {
    let m = p.master;
    let s = p.slave;
    &&& m.wf()
    &&& s.wf()
    &&& m.semantics == s.semantics
    &&& streams_in_step(m, s)
    &&& {
        ||| m.is_ready() && s.is_ready()
        ||| m.is_ready() && s.state == KnockComeState::SlaveSentKnock
        ||| m.state == KnockComeState::MasterGotKnock && s.state == KnockComeState::SlaveSentKnock
        ||| m.state == KnockComeState::MasterSentCome && s.state == KnockComeState::SlaveGotCome
    }
}

/// From a pair that keeps the joint invariant, every joint step keeps it,
/// and the only fault any step can meet is a counter at its type's limit.
pub proof fn lemma_joint_step(p: TaskPair, e: JointEvent)
    requires
        joint_inv(p),
    ensures
        joint_step(p, e) is Ok ==> joint_inv(joint_step(p, e)->Ok_0),
        joint_step(p, e) is Err && joint_step(p, e)->Err_0 is Fault
            ==> joint_step(p, e)->Err_0->Fault_0 == KnockComeFault::CounterOverflow,
{
}

proof fn lemma_joint_run_invariant(semantics: TaskSemantics, events: Seq<JointEvent>)
    requires
        run(joint_step_fn(), initial_pair(semantics), events) is Some,
    ensures
        joint_inv(run(joint_step_fn(), initial_pair(semantics), events)->Some_0.0),
    decreases events.len(),
{
    if events.len() > 0 {
        lemma_joint_run_invariant(semantics, events.drop_last());
        lemma_run_prefix(joint_step_fn(), initial_pair(semantics), events);
        let p1 = run(joint_step_fn(), initial_pair(semantics), events.drop_last())->Some_0.0;
        lemma_joint_step(p1, events.last());
    }
}

/// Along every joint run of a master and a slave from the program's start,
/// in any semantics and any interleaving of knocks, `Come`s, data and
/// spontaneous data (delivered or failed): both data streams stay in step,
/// and whatever may happen next, neither side's sequence check fires, nor
/// any other protocol check; the only fault left is a counter at its type's
/// limit.
pub proof fn lemma_joint_run_in_step(semantics: TaskSemantics, events: Seq<JointEvent>)
    requires
        run(joint_step_fn(), initial_pair(semantics), events) is Some,
    ensures
        ({
            let p = run(joint_step_fn(), initial_pair(semantics), events)->Some_0.0;
            &&& streams_in_step(p.master, p.slave)
            &&& forall|e: JointEvent| #[trigger] joint_step(p, e) is Err && joint_step(p, e)->Err_0 is Fault
                ==> joint_step(p, e)->Err_0->Fault_0 == KnockComeFault::CounterOverflow
        }),
{
    lemma_joint_run_invariant(semantics, events);
    let p = run(joint_step_fn(), initial_pair(semantics), events)->Some_0.0;
    assert forall|e: JointEvent| #[trigger] joint_step(p, e) is Err && joint_step(p, e)->Err_0 is Fault
        implies joint_step(p, e)->Err_0->Fault_0 == KnockComeFault::CounterOverflow by {
        lemma_joint_step(p, e);
    }
}

} // verus!
