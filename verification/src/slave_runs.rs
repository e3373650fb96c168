//! Whole runs of the slave: its knocks, the `Come`s it takes, and the data it
//! sends strictly alternate, and its k-th data message carries k.
use vstd::prelude::*;
use crate::config::TaskSemantics;
use crate::protocol::{KnockComeState, Message};
use crate::runs::{lemma_run_prefix, run};
use crate::slave::SlaveTask;

verus! {

/// An event that the slave task hands to the slave's steps.
#[derive(Clone, Copy, Debug, PartialEq, Eq, Structural)]
pub enum SlaveEvent {
    /// A message (or a closed channel) in the outer select.
    Outer(Option<Message>),
    /// A message (or a closed channel) in the nested select after a knock.
    Nested(Option<Message>),
    /// The knock went out after the timer fired.
    KnockSent,
    /// The data went out (or its send failed) after `Come`.
    DataSent,
}

/// What a slave step does that the master can observe.
#[derive(Clone, Copy, Debug, PartialEq, Eq, Structural)]
pub enum SlaveMark {
    /// The slave knocked.
    Knock,
    /// The slave took `Come` and hands out this data message to send.
    Come(Message),
    /// The slave's data send is over.
    DataSent,
}

/// One slave step on an event, as the slave's methods take it: the event
/// must be one the method accepts in the slave's state, and the method must
/// not fault; otherwise `None`.
pub open spec fn slave_step(s: SlaveTask, e: SlaveEvent) -> Option<(SlaveTask, Seq<SlaveMark>)> {
    match e {
        SlaveEvent::Outer(msg) => match s.message_outcome(msg) {
            Ok((s2, Some(data))) => Some((s2, seq![SlaveMark::Come(data)])),
            Ok((s2, None)) => Some((s2, Seq::empty())),
            Err(_) => None,
        },
        SlaveEvent::Nested(msg) => {
            if s.state == KnockComeState::SlaveSentKnock {
                match s.nested_message_outcome(msg) {
                    Ok((s2, Some(data))) => Some((s2, seq![SlaveMark::Come(data)])),
                    Ok((s2, None)) => Some((s2, Seq::empty())),
                    Err(_) => None,
                }
            } else {
                None
            }
        },
        SlaveEvent::KnockSent => {
            if s.is_ready() {
                match s.knock_outcome() {
                    Ok((s2, _)) => Some((s2, seq![SlaveMark::Knock])),
                    Err(_) => None,
                }
            } else {
                None
            }
        },
        SlaveEvent::DataSent => {
            if s.state == KnockComeState::SlaveGotCome {
                match s.data_sent_outcome() {
                    Ok(s2) => Some((s2, seq![SlaveMark::DataSent])),
                    Err(_) => None,
                }
            } else {
                None
            }
        },
    }
}

/// `slave_step` as a value, for runs.
pub open spec fn slave_step_fn() -> spec_fn(SlaveTask, SlaveEvent) -> Option<(SlaveTask, Seq<SlaveMark>)> {
    |s: SlaveTask, e: SlaveEvent| slave_step(s, e)
}

/// The slave's marks as they must come: knock, `Come` with data k, data
/// sent, for k = 1, 2, ...
pub open spec fn slave_mark_pattern(i: int) -> SlaveMark {
    if i % 3 == 0 {
        SlaveMark::Knock
    } else if i % 3 == 1 {
        SlaveMark::Come(Message::SlaveData { val: (i / 3 + 1) as u32 })
    } else {
        SlaveMark::DataSent
    }
}

/// How far the slave is into its handshake.
pub open spec fn slave_phase(s: SlaveTask) -> int {
    if s.state == KnockComeState::SlaveSentKnock {
        1
    } else if s.state == KnockComeState::SlaveGotCome {
        2
    } else {
        0
    }
}

proof fn lemma_slave_run_invariant(semantics: TaskSemantics, events: Seq<SlaveEvent>)
    requires
        run(slave_step_fn(), SlaveTask::initial(semantics), events) is Some,
    ensures
        ({
            let (s, t) = run(slave_step_fn(), SlaveTask::initial(semantics), events)->Some_0;
            &&& s.wf()
            &&& s.semantics == semantics
            &&& s.data_from_slave >= 1
            &&& t.len() == 3 * (s.data_from_slave - 1) + slave_phase(s)
            &&& forall|i: int| 0 <= i < t.len() ==> #[trigger] t[i] == slave_mark_pattern(i)
        }),
    decreases events.len(),
{
    let init = SlaveTask::initial(semantics);
    if events.len() > 0 {
        let prefix = events.drop_last();
        lemma_slave_run_invariant(semantics, prefix);
        lemma_run_prefix(slave_step_fn(), init, events);
        let (s1, t1) = run(slave_step_fn(), init, prefix)->Some_0;
        let e = events.last();
        let (s2, t2) = slave_step(s1, e)->Some_0;
        let t = t1 + t2;
        let n = t1.len() as int;
        let d = s1.data_from_slave - 1;
        assert(n / 3 == d && n % 3 == slave_phase(s1)) by (nonlinear_arith)
            requires
                n == 3 * d + slave_phase(s1),
                0 <= slave_phase(s1) < 3,
                d >= 0,
        ;
        assert forall|i: int| 0 <= i < t.len() implies #[trigger] t[i] == slave_mark_pattern(i) by {
            if i < n {
                assert(t[i] == t1[i]);
            } else {
                assert(i == n);
            }
        }
        if t2.len() == 1 {
            let n1 = n + 1;
            assert(n1 == 3 * (s2.data_from_slave - 1) + slave_phase(s2));
        }
    }
}

/// The slave's knocks, the `Come`s it takes and its data sends strictly
/// alternate over any run from the start, in every semantics: knock, then
/// `Come`, then data, and again.  The data it hands out on the k-th `Come`
/// is `SlaveData { val: k }`, and no other message goes to the master.
pub proof fn lemma_slave_run_alternates(semantics: TaskSemantics, events: Seq<SlaveEvent>)
    requires
        run(slave_step_fn(), SlaveTask::initial(semantics), events) is Some,
    ensures
        ({
            let t = run(slave_step_fn(), SlaveTask::initial(semantics), events)->Some_0.1;
            forall|i: int| 0 <= i < t.len() ==> #[trigger] t[i] == slave_mark_pattern(i)
        }),
{
    lemma_slave_run_invariant(semantics, events);
}

} // verus!
