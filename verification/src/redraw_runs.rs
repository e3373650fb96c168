//! Whole runs of the redraw variant's tasks: every value a task sends is the
//! number of events it completed before the send (so the values rise by one
//! per event, and the master's stay below its target), and the timeouts it
//! draws are fixed by its seed, whatever the channels do.
use vstd::prelude::*;
use crate::draw::{next_draw_ms_spec, xorshift64_iter};
use crate::redraw::{RedrawMaster, RedrawPhase, RedrawSlave, TARGET_MASTER_EVENTS};
use crate::runs::{lemma_run_prefix, run};

verus! {

/// What a redraw task's step does that can be observed.
#[derive(Clone, Copy, Debug, PartialEq, Eq, Structural)]
pub enum RedrawMark {
    /// The task drew this timeout, in milliseconds.
    Drew(u64),
    /// The task completed an event by receiving data.
    Received,
    /// The slave completed an event by taking spontaneous data in its outer select.
    TookOuter,
    /// The slave completed an event by taking spontaneous data while waiting for `Come`.
    TookNested,
    /// The task completed an event by sending this value.
    Sent(u64),
}

/// How many events the marks `t` complete.
pub open spec fn completed(t: Seq<RedrawMark>) -> nat
    decreases t.len(),
{
    if t.len() == 0 {
        0
    } else {
        completed(t.drop_last()) + if t.last() is Drew { 0nat } else { 1nat }
    }
}

/// How many timeouts the marks `t` drew.
pub open spec fn draws(t: Seq<RedrawMark>) -> nat
    decreases t.len(),
{
    if t.len() == 0 {
        0
    } else {
        draws(t.drop_last()) + if t.last() is Drew { 1nat } else { 0nat }
    }
}

/// A number for each kind of mark.
pub open spec fn mark_kind(x: RedrawMark) -> int {
    match x {
        RedrawMark::Drew(_) => 0,
        RedrawMark::Received => 1,
        RedrawMark::Sent(_) => 2,
        RedrawMark::TookOuter => 3,
        RedrawMark::TookNested => 4,
    }
}

/// How many of the marks `t` are of kind `kind`.
pub open spec fn kind_count(t: Seq<RedrawMark>, kind: int) -> nat
    decreases t.len(),
{
    if t.len() == 0 {
        0
    } else {
        kind_count(t.drop_last(), kind) + if mark_kind(t.last()) == kind { 1nat } else { 0nat }
    }
}

/// The marks of a task with generator seed `seed`: each value sent is the
/// number of events completed before it, and each timeout drawn is the draw
/// of the generator state reached from `seed` by the draws before it.
pub open spec fn marks_follow_seed_and_count(seed: u64, t: Seq<RedrawMark>) -> bool {
    &&& forall|i: int| 0 <= i < t.len() && #[trigger] t[i] is Sent ==> t[i]->Sent_0 == completed(t.take(i))
    &&& forall|i: int| 0 <= i < t.len() && #[trigger] t[i] is Drew
        ==> t[i]->Drew_0 == next_draw_ms_spec(xorshift64_iter(seed, draws(t.take(i))))
}

proof fn lemma_marks_extend(seed: u64, t: Seq<RedrawMark>, rng: u64, count: u64, x: RedrawMark)
    requires
        marks_follow_seed_and_count(seed, t),
        count == completed(t),
        rng == xorshift64_iter(seed, draws(t)),
        x is Drew ==> x->Drew_0 == next_draw_ms_spec(rng),
        x is Sent ==> x->Sent_0 == count,
    ensures
        marks_follow_seed_and_count(seed, t.push(x)),
        completed(t.push(x)) == completed(t) + if x is Drew { 0nat } else { 1nat },
        forall|k: int| #[trigger] kind_count(t.push(x), k) == kind_count(t, k) + if mark_kind(x) == k { 1nat } else { 0nat },
        draws(t.push(x)) == draws(t) + if x is Drew { 1nat } else { 0nat },
{
    let tt = t.push(x);
    let n = t.len() as int;
    assert(tt.drop_last() =~= t);
    assert forall|k: int| #[trigger] kind_count(tt, k) == kind_count(t, k) + if mark_kind(x) == k { 1nat } else { 0nat } by {
        assert(tt.drop_last() =~= t);
    }
    assert(tt.take(n) =~= t);
    assert forall|i: int| 0 <= i < tt.len() && #[trigger] tt[i] is Sent implies tt[i]->Sent_0 == completed(tt.take(i)) by {
        if i < n {
            assert(tt[i] == t[i]);
            assert(tt.take(i) =~= t.take(i));
        }
    }
    assert forall|i: int| 0 <= i < tt.len() && #[trigger] tt[i] is Drew
        implies tt[i]->Drew_0 == next_draw_ms_spec(xorshift64_iter(seed, draws(tt.take(i)))) by {
        if i < n {
            assert(tt[i] == t[i]);
            assert(tt.take(i) =~= t.take(i));
        }
    }
}

/// An event that the redraw master hands to its steps.
#[derive(Clone, Copy, Debug, PartialEq, Eq, Structural)]
pub enum RedrawMasterEvent {
    Draw,
    Knock,
    ComeSent,
    DataReceived,
    TimerFired,
    SpontaneousSent,
}

/// One step of the redraw master, as its methods take it; `None` where the
/// event is not one the method accepts in the master's state.
pub open spec fn redraw_master_step(m: RedrawMaster, e: RedrawMasterEvent) -> Option<(RedrawMaster, Seq<RedrawMark>)> {
    match e {
        RedrawMasterEvent::Draw => if m.phase == RedrawPhase::Idle && m.count < TARGET_MASTER_EVENTS {
            Some((m.drawn(), seq![RedrawMark::Drew(next_draw_ms_spec(m.rng))]))
        } else {
            None
        },
        RedrawMasterEvent::Knock => if m.phase == RedrawPhase::Drawn {
            Some((m.knock_taken(), Seq::empty()))
        } else {
            None
        },
        RedrawMasterEvent::ComeSent => if m.phase == RedrawPhase::KnockTaken {
            Some((m.come_sent(), Seq::empty()))
        } else {
            None
        },
        RedrawMasterEvent::DataReceived => if m.phase == RedrawPhase::ComeSent {
            Some((m.data_received(), seq![RedrawMark::Received]))
        } else {
            None
        },
        RedrawMasterEvent::TimerFired => if m.phase == RedrawPhase::Drawn {
            Some((m.timer_fired(), Seq::empty()))
        } else {
            None
        },
        RedrawMasterEvent::SpontaneousSent => if m.phase == RedrawPhase::TimerFired {
            Some((m.spontaneous_sent(), seq![RedrawMark::Sent(m.count)]))
        } else {
            None
        },
    }
}

/// `redraw_master_step` as a value, for runs.
pub open spec fn redraw_master_step_fn() -> spec_fn(RedrawMaster, RedrawMasterEvent) -> Option<(RedrawMaster, Seq<RedrawMark>)> {
    |m: RedrawMaster, e: RedrawMasterEvent| redraw_master_step(m, e)
}

/// What holds of the redraw master and its marks after every run from `seed`.
pub open spec fn redraw_master_inv(seed: u64, m: RedrawMaster, t: Seq<RedrawMark>) -> bool {
    &&& m.wf()
    &&& m.stats.datas == kind_count(t, 1)
    &&& m.stats.spontaneous_datas == kind_count(t, 2)
    &&& m.count == completed(t)
    &&& m.rng == xorshift64_iter(seed, draws(t))
    &&& marks_follow_seed_and_count(seed, t)
    &&& forall|i: int| 0 <= i < t.len() && #[trigger] t[i] is Sent ==> t[i]->Sent_0 < TARGET_MASTER_EVENTS
}

proof fn lemma_redraw_master_step(seed: u64, m: RedrawMaster, t: Seq<RedrawMark>, e: RedrawMasterEvent)
    requires
        redraw_master_inv(seed, m, t),
        redraw_master_step(m, e) is Some,
    ensures
        redraw_master_inv(seed, redraw_master_step(m, e)->Some_0.0, t + redraw_master_step(m, e)->Some_0.1),
{
    let (m2, t2) = redraw_master_step(m, e)->Some_0;
    if t2.len() == 0 {
        assert(t + t2 =~= t);
    } else {
        let x = t2[0];
        assert(t + t2 =~= t.push(x));
        lemma_marks_extend(seed, t, m.rng, m.count, x);
        let tt = t.push(x);
        assert forall|i: int| 0 <= i < tt.len() && #[trigger] tt[i] is Sent implies tt[i]->Sent_0 < TARGET_MASTER_EVENTS by {
            if i < t.len() {
                assert(tt[i] == t[i]);
            }
        }
    }
}

proof fn lemma_redraw_master_run_invariant(seed: u64, events: Seq<RedrawMasterEvent>)
    requires
        run(redraw_master_step_fn(), RedrawMaster::initial(seed), events) is Some,
    ensures
        ({
            let (m, t) = run(redraw_master_step_fn(), RedrawMaster::initial(seed), events)->Some_0;
            redraw_master_inv(seed, m, t)
        }),
    decreases events.len(),
{
    let init = RedrawMaster::initial(seed);
    if events.len() > 0 {
        lemma_redraw_master_run_invariant(seed, events.drop_last());
        lemma_run_prefix(redraw_master_step_fn(), init, events);
        let (m1, t1) = run(redraw_master_step_fn(), init, events.drop_last())->Some_0;
        lemma_redraw_master_step(seed, m1, t1, events.last());
    }
}

/// Over any run of the redraw master from `seed`: each value it sends is the
/// number of events it completed before the send, and is below
/// `TARGET_MASTER_EVENTS`; the i-th timeout it draws is the draw of the
/// generator state i steps from `seed`, however the select passes went.
pub proof fn lemma_redraw_master_run(seed: u64, events: Seq<RedrawMasterEvent>)
    requires
        run(redraw_master_step_fn(), RedrawMaster::initial(seed), events) is Some,
    ensures
        ({
            let t = run(redraw_master_step_fn(), RedrawMaster::initial(seed), events)->Some_0.1;
            &&& marks_follow_seed_and_count(seed, t)
            &&& forall|i: int| 0 <= i < t.len() && #[trigger] t[i] is Sent ==> t[i]->Sent_0 < TARGET_MASTER_EVENTS
        }),
{
    lemma_redraw_master_run_invariant(seed, events);
}

/// Over any run of the redraw master, its statistics count each kind of
/// event apart: `datas` is the number of data values it received from the
/// slave, `spontaneous_datas` the number of spontaneous values it sent.
pub proof fn lemma_redraw_master_counts_split(seed: u64, events: Seq<RedrawMasterEvent>)
    requires
        run(redraw_master_step_fn(), RedrawMaster::initial(seed), events) is Some,
    ensures
        ({
            let (m, t) = run(redraw_master_step_fn(), RedrawMaster::initial(seed), events)->Some_0;
            &&& m.stats.datas == kind_count(t, 1)
            &&& m.stats.spontaneous_datas == kind_count(t, 2)
            &&& m.count == kind_count(t, 1) + kind_count(t, 2)
        }),
{
    lemma_redraw_master_run_invariant(seed, events);
}

/// An event that the redraw slave hands to its steps.
#[derive(Clone, Copy, Debug, PartialEq, Eq, Structural)]
pub enum RedrawSlaveEvent {
    Draw,
    Spontaneous,
    TimerFired,
    KnockSent,
    NestedSpontaneous,
    Come,
    DataSent,
    EndPass,
}

/// One step of the redraw slave, as its methods take it; `None` where the
/// event is not one the method accepts in the slave's state.
pub open spec fn redraw_slave_step(s: RedrawSlave, e: RedrawSlaveEvent) -> Option<(RedrawSlave, Seq<RedrawMark>)> {
    match e {
        RedrawSlaveEvent::Draw => if s.phase == RedrawPhase::Idle && s.stats.draws_n < u64::MAX {
            Some((s.drawn(), seq![RedrawMark::Drew(next_draw_ms_spec(s.rng))]))
        } else {
            None
        },
        RedrawSlaveEvent::Spontaneous => if s.phase == RedrawPhase::Drawn && s.count < u64::MAX {
            Some((s.spontaneous_taken(), seq![RedrawMark::TookOuter]))
        } else {
            None
        },
        RedrawSlaveEvent::TimerFired => if s.phase == RedrawPhase::Drawn {
            Some((s.timer_fired(), Seq::empty()))
        } else {
            None
        },
        RedrawSlaveEvent::KnockSent => if s.phase == RedrawPhase::TimerFired && s.stats.sends < u64::MAX {
            Some((s.knock_sent(), Seq::empty()))
        } else {
            None
        },
        RedrawSlaveEvent::NestedSpontaneous => if s.phase == RedrawPhase::AwaitCome && s.count < u64::MAX {
            Some((s.nested_spontaneous_taken(), seq![RedrawMark::TookNested]))
        } else {
            None
        },
        RedrawSlaveEvent::Come => if s.phase == RedrawPhase::AwaitCome {
            Some((s.come_taken(), Seq::empty()))
        } else {
            None
        },
        RedrawSlaveEvent::DataSent => if s.phase == RedrawPhase::GotCome && s.count < u64::MAX
            && s.stats.sends < u64::MAX {
            Some((s.data_sent(), seq![RedrawMark::Sent(s.count)]))
        } else {
            None
        },
        RedrawSlaveEvent::EndPass => if s.phase == RedrawPhase::AwaitCome || s.phase == RedrawPhase::GotCome {
            Some((s.pass_abandoned(), Seq::empty()))
        } else {
            None
        },
    }
}

/// `redraw_slave_step` as a value, for runs.
pub open spec fn redraw_slave_step_fn() -> spec_fn(RedrawSlave, RedrawSlaveEvent) -> Option<(RedrawSlave, Seq<RedrawMark>)> {
    |s: RedrawSlave, e: RedrawSlaveEvent| redraw_slave_step(s, e)
}

/// What holds of the redraw slave and its marks after every run from `seed`.
pub open spec fn redraw_slave_inv(seed: u64, s: RedrawSlave, t: Seq<RedrawMark>) -> bool {
    &&& s.wf()
    &&& s.stats.spontaneous_datas == kind_count(t, 3)
    &&& s.stats.spontaneous_datas_2 == kind_count(t, 4)
    &&& s.stats.datas == kind_count(t, 2)
    &&& s.count == completed(t)
    &&& s.rng == xorshift64_iter(seed, draws(t))
    &&& marks_follow_seed_and_count(seed, t)
}

proof fn lemma_redraw_slave_step(seed: u64, s: RedrawSlave, t: Seq<RedrawMark>, e: RedrawSlaveEvent)
    requires
        redraw_slave_inv(seed, s, t),
        redraw_slave_step(s, e) is Some,
    ensures
        redraw_slave_inv(seed, redraw_slave_step(s, e)->Some_0.0, t + redraw_slave_step(s, e)->Some_0.1),
{
    let (s2, t2) = redraw_slave_step(s, e)->Some_0;
    if t2.len() == 0 {
        assert(t + t2 =~= t);
    } else {
        let x = t2[0];
        assert(t + t2 =~= t.push(x));
        lemma_marks_extend(seed, t, s.rng, s.count, x);
    }
}

proof fn lemma_redraw_slave_run_invariant(seed: u64, events: Seq<RedrawSlaveEvent>)
    requires
        run(redraw_slave_step_fn(), RedrawSlave::initial(seed), events) is Some,
    ensures
        ({
            let (s, t) = run(redraw_slave_step_fn(), RedrawSlave::initial(seed), events)->Some_0;
            redraw_slave_inv(seed, s, t)
        }),
    decreases events.len(),
{
    let init = RedrawSlave::initial(seed);
    if events.len() > 0 {
        lemma_redraw_slave_run_invariant(seed, events.drop_last());
        lemma_run_prefix(redraw_slave_step_fn(), init, events);
        let (s1, t1) = run(redraw_slave_step_fn(), init, events.drop_last())->Some_0;
        lemma_redraw_slave_step(seed, s1, t1, events.last());
    }
}

/// Over any run of the redraw slave from `seed`: each data value it sends is
/// the number of events (spontaneous data taken plus data sent) it completed
/// before the send; the i-th timeout it draws is the draw of the generator
/// state i steps from `seed`, however the select passes went.
pub proof fn lemma_redraw_slave_run(seed: u64, events: Seq<RedrawSlaveEvent>)
    requires
        run(redraw_slave_step_fn(), RedrawSlave::initial(seed), events) is Some,
    ensures
        marks_follow_seed_and_count(seed, run(redraw_slave_step_fn(), RedrawSlave::initial(seed), events)->Some_0.1),
{
    lemma_redraw_slave_run_invariant(seed, events);
}

/// Over any run of the redraw slave, its statistics count each kind of
/// event apart: `spontaneous_datas` is the number of spontaneous values it
/// took in its outer select, `spontaneous_datas_2` the number it took while
/// waiting for `Come`, and `datas` the number of data values it sent.
pub proof fn lemma_redraw_slave_counts_split(seed: u64, events: Seq<RedrawSlaveEvent>)
    requires
        run(redraw_slave_step_fn(), RedrawSlave::initial(seed), events) is Some,
    ensures
        ({
            let (s, t) = run(redraw_slave_step_fn(), RedrawSlave::initial(seed), events)->Some_0;
            &&& s.stats.spontaneous_datas == kind_count(t, 3)
            &&& s.stats.spontaneous_datas_2 == kind_count(t, 4)
            &&& s.stats.datas == kind_count(t, 2)
            &&& s.count == kind_count(t, 2) + kind_count(t, 3) + kind_count(t, 4)
        }),
{
    lemma_redraw_slave_run_invariant(seed, events);
}

} // verus!
