//! Whole runs of the master: each knock is answered by exactly one `Come`,
//! followed by the slave's reply with nothing in between, and the k-th
//! spontaneous value that goes out is k.
use vstd::prelude::*;
use crate::config::TaskSemantics;
use crate::master::MasterTask;
use crate::protocol::{KnockComeState, Message};
use crate::runs::{lemma_run_prefix, run};

verus! {

/// An event that the master task hands to the master's steps.
#[derive(Clone, Copy, Debug, PartialEq, Eq, Structural)]
pub enum MasterEvent {
    /// A knock arrived.
    Knock,
    /// The `Come` went out.
    ComeSent,
    /// The slave's reply (or a closed channel) arrived.
    Reply(Option<Message>),
    /// A spontaneous send finished, successfully or not.
    SpontaneousSent(bool),
}

/// What a master step does that the slave can observe.
#[derive(Clone, Copy, Debug, PartialEq, Eq, Structural)]
pub enum MasterMark {
    /// The master took a knock and hands out this message to send.
    Answer(Message),
    /// The `Come` went out.
    ComeOut,
    /// The master accepted the slave's data value.
    DataIn(u32),
    /// The master tried to send spontaneous data with value `val`.
    Spontaneous { val: u32, sent: bool },
}

/// One master step on an event, as the master's methods take it: the event
/// must be one the method accepts in the master's state, and the method must
/// not fault; otherwise `None`.
pub open spec fn master_step(m: MasterTask, e: MasterEvent) -> Option<(MasterTask, Seq<MasterMark>)> {
    match e {
        MasterEvent::Knock => {
            if m.is_ready() {
                Some((m.knocked(), seq![MasterMark::Answer(Message::Come)]))
            } else {
                None
            }
        },
        MasterEvent::ComeSent => {
            if m.state == KnockComeState::MasterGotKnock {
                Some((m.come_sent(), seq![MasterMark::ComeOut]))
            } else {
                None
            }
        },
        MasterEvent::Reply(reply) => {
            if m.state == KnockComeState::MasterSentCome {
                match m.reply_outcome(reply) {
                    Ok((m2, _)) => Some((m2, seq![MasterMark::DataIn(m2.data_from_slave)])),
                    Err(_) => None,
                }
            } else {
                None
            }
        },
        MasterEvent::SpontaneousSent(sent) => {
            if m.is_ready() {
                match m.spontaneous_outcome(sent) {
                    Ok((m2, _)) => Some((
                        m2,
                        seq![MasterMark::Spontaneous { val: m.data_from_master, sent: sent }],
                    )),
                    Err(_) => None,
                }
            } else {
                None
            }
        },
    }
}

/// `master_step` as a value, for runs.
pub open spec fn master_step_fn() -> spec_fn(MasterTask, MasterEvent) -> Option<(MasterTask, Seq<MasterMark>)> {
    |m: MasterTask, e: MasterEvent| master_step(m, e)
}

/// How many spontaneous sends among `t` went out.
pub open spec fn sent_count(t: Seq<MasterMark>) -> nat
    decreases t.len(),
{
    if t.len() == 0 {
        0
    } else {
        sent_count(t.drop_last()) + match t.last() {
            MasterMark::Spontaneous { sent: true, .. } => 1nat,
            _ => 0nat,
        }
    }
}

/// The order of the master's handshake marks: a knock's answer is followed
/// by `Come` going out, which is followed by the slave's data; each of these
/// comes only right after the one before it.
pub open spec fn handshake_ordered(t: Seq<MasterMark>) -> bool {
    &&& forall|i: int| 0 <= i < t.len() && #[trigger] t[i] is Answer ==> t[i] == MasterMark::Answer(Message::Come)
    &&& forall|i: int| 0 <= i < t.len() - 1 && #[trigger] t[i] is Answer ==> t[i + 1] is ComeOut
    &&& forall|i: int| 0 <= i < t.len() - 1 && #[trigger] t[i] is ComeOut ==> t[i + 1] is DataIn
    &&& forall|i: int| 0 <= i < t.len() && #[trigger] t[i] is ComeOut ==> i >= 1 && t[i - 1] is Answer
    &&& forall|i: int| 0 <= i < t.len() && #[trigger] t[i] is DataIn ==> i >= 1 && t[i - 1] is ComeOut
}

/// What holds of the master and its marks after every run from the start.
pub open spec fn master_run_inv(m: MasterTask, t: Seq<MasterMark>) -> bool {
    &&& m.wf()
    &&& m.data_from_master == 1 + sent_count(t)
    &&& forall|i: int| 0 <= i < t.len() && #[trigger] t[i] is Spontaneous
        ==> t[i]->val == 1 + sent_count(t.take(i))
    &&& handshake_ordered(t)
    &&& m.state == KnockComeState::MasterGotKnock ==> t.len() > 0 && t.last() is Answer
    &&& m.state == KnockComeState::MasterSentCome ==> t.len() > 0 && t.last() is ComeOut
    &&& m.is_ready() ==> t.len() == 0 || t.last() is DataIn || t.last() is Spontaneous
}

proof fn lemma_master_step_keeps_inv(m: MasterTask, t: Seq<MasterMark>, e: MasterEvent)
    requires
        master_run_inv(m, t),
        master_step(m, e) is Some,
    ensures
        master_run_inv(master_step(m, e)->Some_0.0, t + master_step(m, e)->Some_0.1),
{
    let (m2, t2) = master_step(m, e)->Some_0;
    let tt = t + t2;
    let n = t.len() as int;
    assert(t2.len() == 1);
    assert(tt.drop_last() =~= t);
    assert(tt.take(n) =~= t);
    assert(tt.last() == t2[0]);
    assert forall|i: int| 0 <= i < n implies #[trigger] tt[i] == t[i] by {}
    assert forall|i: int| 0 <= i < n implies #[trigger] tt.take(i) =~= t.take(i) by {}
    assert forall|i: int| 0 <= i < tt.len() && #[trigger] tt[i] is Spontaneous
        implies tt[i]->val == 1 + sent_count(tt.take(i)) by {
        if i < n {
            assert(tt[i] == t[i]);
            assert(tt.take(i) =~= t.take(i));
        }
    }
    assert(handshake_ordered(tt)) by {
        assert forall|i: int| 0 <= i < tt.len() - 1 && #[trigger] tt[i] is Answer implies tt[i + 1] is ComeOut by {
            if i + 1 < n {
                assert(tt[i] == t[i] && tt[i + 1] == t[i + 1]);
            } else {
                assert(tt[i] == t.last());
            }
        }
        assert forall|i: int| 0 <= i < tt.len() - 1 && #[trigger] tt[i] is ComeOut implies tt[i + 1] is DataIn by {
            if i + 1 < n {
                assert(tt[i] == t[i] && tt[i + 1] == t[i + 1]);
            } else {
                assert(tt[i] == t.last());
            }
        }
        assert forall|i: int| 0 <= i < tt.len() && #[trigger] tt[i] is ComeOut implies i >= 1 && tt[i - 1] is Answer by {
            if i < n {
                assert(tt[i] == t[i] && tt[i - 1] == t[i - 1]);
            } else {
                assert(tt[i - 1] == t.last());
            }
        }
        assert forall|i: int| 0 <= i < tt.len() && #[trigger] tt[i] is DataIn implies i >= 1 && tt[i - 1] is ComeOut by {
            if i < n {
                assert(tt[i] == t[i] && tt[i - 1] == t[i - 1]);
            } else {
                assert(tt[i - 1] == t.last());
            }
        }
    }
}

proof fn lemma_master_run_invariant(semantics: TaskSemantics, events: Seq<MasterEvent>)
    requires
        run(master_step_fn(), MasterTask::initial(semantics), events) is Some,
    ensures
        ({
            let (m, t) = run(master_step_fn(), MasterTask::initial(semantics), events)->Some_0;
            master_run_inv(m, t)
        }),
    decreases events.len(),
{
    let init = MasterTask::initial(semantics);
    if events.len() > 0 {
        let prefix = events.drop_last();
        lemma_master_run_invariant(semantics, prefix);
        lemma_run_prefix(master_step_fn(), init, events);
        let (m1, t1) = run(master_step_fn(), init, prefix)->Some_0;
        lemma_master_step_keeps_inv(m1, t1, events.last());
    } else {
        assert(handshake_ordered(Seq::<MasterMark>::empty()));
    }
}

/// Over any run of the master from the start: the k-th spontaneous value
/// that goes out is k, and a send that fails leaves the value for the next
/// try unchanged; every knock is answered with exactly one `Come`, which
/// goes out next, after which the master takes the slave's data before
/// anything else (no spontaneous data and no knock in between).
pub proof fn lemma_master_run_ordered(semantics: TaskSemantics, events: Seq<MasterEvent>)
    requires
        run(master_step_fn(), MasterTask::initial(semantics), events) is Some,
    ensures
        ({
            let t = run(master_step_fn(), MasterTask::initial(semantics), events)->Some_0.1;
            &&& forall|i: int| 0 <= i < t.len() && #[trigger] t[i] is Spontaneous
                ==> t[i]->val == 1 + sent_count(t.take(i))
            &&& handshake_ordered(t)
        }),
{
    lemma_master_run_invariant(semantics, events);
}

} // verus!
