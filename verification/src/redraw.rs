//! The redraw variant of the handshake, whose tasks draw a fresh timeout from
//! a seeded xorshift generator on every select pass.  The master stops after
//! a fixed number of events; the slave runs until a channel closes.  Each
//! task counts what it does in each pass; the clock-based time accounting
//! and the floating-point means stay with the tasks themselves.
use vstd::prelude::*;
use crate::draw::{
    lemma_xorshift64_iter_nonzero, next_draw_ms, next_draw_ms_spec, xorshift64_iter, xorshift64_spec,
};

verus! {

/// The number of events after which the master of the redraw variant stops.
pub const TARGET_MASTER_EVENTS: u64 = 1000;

/// The seed of the master's generator.
pub const MASTER_SEED: u64 = 0x9E3779B97F4A7C15;

/// The seed of the slave's generator.
pub const SLAVE_SEED: u64 = 0xD1B54A32D192ED03;

/// The integer statistics of a redraw task.
#[derive(Clone, Copy, Debug, PartialEq, Eq, Structural)]
pub struct RedrawStats {
    /// Timeouts drawn (one per select pass).
    pub draws_n: u64,
    /// Passes on which the timer fired.
    pub fired_n: u64,
    /// Messages sent.
    pub sends: u64,
    /// Data messages received.
    pub recvs: u64,
    /// Knocks taken (master) or sent (slave).
    pub knocks: u64,
    /// `Come`s sent (master) or received (slave).
    pub comes: u64,
    /// Data received (master) or sent (slave) after `Come`.
    pub datas: u64,
    /// Spontaneous data sent (master) or received in the outer select (slave).
    pub spontaneous_datas: u64,
    /// Spontaneous data received while waiting for `Come` (slave).
    pub spontaneous_datas_2: u64,
}

impl RedrawStats {
    /// All statistics zero.
    pub open spec fn zero() -> RedrawStats {
        RedrawStats {
            draws_n: 0,
            fired_n: 0,
            sends: 0,
            recvs: 0,
            knocks: 0,
            comes: 0,
            datas: 0,
            spontaneous_datas: 0,
            spontaneous_datas_2: 0,
        }
    }

    /// Statistics that all start at zero.
    pub fn new() -> (st: RedrawStats)
        ensures
            st == RedrawStats::zero(),
    {
        RedrawStats {
            draws_n: 0,
            fired_n: 0,
            sends: 0,
            recvs: 0,
            knocks: 0,
            comes: 0,
            datas: 0,
            spontaneous_datas: 0,
            spontaneous_datas_2: 0,
        }
    }
}

/// Where a redraw task is within its current select pass.
#[derive(Clone, Copy, Debug, PartialEq, Eq, Structural)]
pub enum RedrawPhase {
    /// Between passes.
    Idle,
    /// The pass's timeout is drawn; the task waits in its select.
    Drawn,
    /// Master: a knock won the select.
    KnockTaken,
    /// Master: its `Come` went out; it waits for the data.
    ComeSent,
    /// The timer won the select.
    TimerFired,
    /// Slave: its knock went out; it waits for `Come`.
    AwaitCome,
    /// Slave: it got `Come` and sends its data.
    GotCome,
}

/// The master of the redraw variant: its generator, its event count, its
/// place in the pass, and its statistics.
#[derive(Clone, Copy, Debug, PartialEq, Eq, Structural)]
pub struct RedrawMaster {
    /// The xorshift state from which timeouts are drawn.
    pub rng: u64,
    /// The events completed so far (data received plus spontaneous data sent);
    /// also the value sent with spontaneous data.
    pub count: u64,
    /// Where the master is within the current pass.
    pub phase: RedrawPhase,
    /// The statistics.
    pub stats: RedrawStats,
}

/// The slave of the redraw variant: its generator, its event count, its
/// place in the pass, and its statistics.
#[derive(Clone, Copy, Debug, PartialEq, Eq, Structural)]
pub struct RedrawSlave {
    /// The xorshift state from which timeouts are drawn.
    pub rng: u64,
    /// The events completed so far (spontaneous data received plus data
    /// sent); also the value sent with data.
    pub count: u64,
    /// Where the slave is within the current pass.
    pub phase: RedrawPhase,
    /// The statistics.
    pub stats: RedrawStats,
}

impl RedrawMaster {
    /// The invariant: every completed pass completed one event, and the
    /// statistics count exactly the steps of the completed passes and of the
    /// pass under way.
    pub open spec fn wf(self) -> bool {
        let st = self.stats;
        let p = self.phase;
        let open: int = if p == RedrawPhase::Idle { 0 } else { 1 };
        let knock_open: int = if p == RedrawPhase::KnockTaken || p == RedrawPhase::ComeSent { 1 } else { 0 };
        let come_open: int = if p == RedrawPhase::ComeSent { 1 } else { 0 };
        let fire_open: int = if p == RedrawPhase::TimerFired { 1 } else { 0 };
        &&& p == RedrawPhase::Idle || p == RedrawPhase::Drawn || p == RedrawPhase::KnockTaken
            || p == RedrawPhase::ComeSent || p == RedrawPhase::TimerFired
        &&& self.count <= TARGET_MASTER_EVENTS
        &&& p != RedrawPhase::Idle ==> self.count < TARGET_MASTER_EVENTS
        &&& self.count == st.datas + st.spontaneous_datas
        &&& st.recvs == st.datas
        &&& st.sends == st.comes + st.spontaneous_datas
        &&& st.spontaneous_datas_2 == 0
        &&& st.draws_n == self.count + open
        &&& st.knocks == st.datas + knock_open
        &&& st.comes == st.datas + come_open
        &&& st.fired_n == st.spontaneous_datas + fire_open
    }

    /// The master as it starts, with its generator at `seed`.
    pub open spec fn initial(seed: u64) -> RedrawMaster {
        RedrawMaster { rng: seed, count: 0, phase: RedrawPhase::Idle, stats: RedrawStats::zero() }
    }

    /// The master after drawing the pass's timeout.
    pub open spec fn drawn(self) -> RedrawMaster {
        RedrawMaster {
            rng: xorshift64_spec(self.rng),
            phase: RedrawPhase::Drawn,
            stats: RedrawStats { draws_n: (self.stats.draws_n + 1) as u64, ..self.stats },
            ..self
        }
    }

    /// The master after a knock won the select.
    pub open spec fn knock_taken(self) -> RedrawMaster {
        RedrawMaster {
            phase: RedrawPhase::KnockTaken,
            stats: RedrawStats { knocks: (self.stats.knocks + 1) as u64, ..self.stats },
            ..self
        }
    }

    /// The master after its `Come` went out.
    pub open spec fn come_sent(self) -> RedrawMaster {
        RedrawMaster {
            phase: RedrawPhase::ComeSent,
            stats: RedrawStats {
                sends: (self.stats.sends + 1) as u64,
                comes: (self.stats.comes + 1) as u64,
                ..self.stats
            },
            ..self
        }
    }

    /// The master after the slave's data arrived: one more event.
    pub open spec fn data_received(self) -> RedrawMaster {
        RedrawMaster {
            count: (self.count + 1) as u64,
            phase: RedrawPhase::Idle,
            stats: RedrawStats {
                recvs: (self.stats.recvs + 1) as u64,
                datas: (self.stats.datas + 1) as u64,
                ..self.stats
            },
            ..self
        }
    }

    /// The master after its timer won the select.
    pub open spec fn timer_fired(self) -> RedrawMaster {
        RedrawMaster {
            phase: RedrawPhase::TimerFired,
            stats: RedrawStats { fired_n: (self.stats.fired_n + 1) as u64, ..self.stats },
            ..self
        }
    }

    /// The master after its spontaneous data went out: one more event.
    pub open spec fn spontaneous_sent(self) -> RedrawMaster {
        RedrawMaster {
            count: (self.count + 1) as u64,
            phase: RedrawPhase::Idle,
            stats: RedrawStats {
                sends: (self.stats.sends + 1) as u64,
                spontaneous_datas: (self.stats.spontaneous_datas + 1) as u64,
                ..self.stats
            },
            ..self
        }
    }

    /// The master at start, its generator at `seed`.
    pub fn new(seed: u64) -> (m: RedrawMaster)
        ensures
            m == RedrawMaster::initial(seed),
            m.wf(),
    {
        RedrawMaster { rng: seed, count: 0, phase: RedrawPhase::Idle, stats: RedrawStats::new() }
    }

    /// Whether the master goes on: until it has completed `TARGET_MASTER_EVENTS`.
    pub fn master_running(&self) -> (running: bool)
        ensures
            running == (self.count < TARGET_MASTER_EVENTS),
    {
        self.count < TARGET_MASTER_EVENTS
    }

    /// Starts a pass: draws its timeout, fresh, in `0..=99` milliseconds.
    pub fn draw(&mut self) -> (ms: u64)
        requires
            old(self).wf(),
            old(self).phase == RedrawPhase::Idle,
            old(self).count < TARGET_MASTER_EVENTS,
        ensures
            ms == next_draw_ms_spec(old(self).rng),
            ms < 100,
            *final(self) == old(self).drawn(),
            final(self).wf(),
    {
        let ms = next_draw_ms(&mut self.rng);
        self.phase = RedrawPhase::Drawn;
        self.stats.draws_n = self.stats.draws_n + 1;
        ms
    }

    /// A knock won the select.
    pub fn on_knock(&mut self)
        requires
            old(self).wf(),
            old(self).phase == RedrawPhase::Drawn,
        ensures
            *final(self) == old(self).knock_taken(),
            final(self).wf(),
    {
        self.phase = RedrawPhase::KnockTaken;
        self.stats.knocks = self.stats.knocks + 1;
    }

    /// The `Come` went out.
    pub fn on_come_sent(&mut self)
        requires
            old(self).wf(),
            old(self).phase == RedrawPhase::KnockTaken,
        ensures
            *final(self) == old(self).come_sent(),
            final(self).wf(),
    {
        self.phase = RedrawPhase::ComeSent;
        self.stats.sends = self.stats.sends + 1;
        self.stats.comes = self.stats.comes + 1;
    }

    /// The slave's data arrived: the pass completes one event.
    pub fn on_data_received(&mut self)
        requires
            old(self).wf(),
            old(self).phase == RedrawPhase::ComeSent,
        ensures
            *final(self) == old(self).data_received(),
            final(self).wf(),
            final(self).count == old(self).count + 1,
            final(self).stats.datas == old(self).stats.datas + 1,
            final(self).stats.recvs == old(self).stats.recvs + 1,
            final(self).stats.spontaneous_datas == old(self).stats.spontaneous_datas,
            final(self).stats.sends == old(self).stats.sends,
            final(self).phase == RedrawPhase::Idle,
    {
        self.phase = RedrawPhase::Idle;
        self.stats.recvs = self.stats.recvs + 1;
        self.stats.datas = self.stats.datas + 1;
        self.count = self.count + 1;
    }

    /// The timer won the select.
    pub fn on_timer_fired(&mut self)
        requires
            old(self).wf(),
            old(self).phase == RedrawPhase::Drawn,
        ensures
            *final(self) == old(self).timer_fired(),
            final(self).wf(),
    {
        self.phase = RedrawPhase::TimerFired;
        self.stats.fired_n = self.stats.fired_n + 1;
    }

    /// The value the master sends with spontaneous data: its event count.
    pub fn data_value(&self) -> (v: u64)
        ensures
            v == self.count,
    {
        self.count
    }

    /// The spontaneous data went out: the pass completes one event.
    pub fn on_spontaneous_sent(&mut self)
        requires
            old(self).wf(),
            old(self).phase == RedrawPhase::TimerFired,
        ensures
            *final(self) == old(self).spontaneous_sent(),
            final(self).wf(),
            final(self).count == old(self).count + 1,
            final(self).stats.spontaneous_datas == old(self).stats.spontaneous_datas + 1,
            final(self).stats.sends == old(self).stats.sends + 1,
            final(self).stats.datas == old(self).stats.datas,
            final(self).stats.recvs == old(self).stats.recvs,
            final(self).phase == RedrawPhase::Idle,
    {
        self.phase = RedrawPhase::Idle;
        self.stats.spontaneous_datas = self.stats.spontaneous_datas + 1;
        self.stats.sends = self.stats.sends + 1;
        self.count = self.count + 1;
    }
}

impl RedrawSlave {
    /// The invariant: every event is a spontaneous value taken or a data
    /// value sent; every send is a knock or a data value; nothing is
    /// received as data; and each step of a pass follows the one before it.
    pub open spec fn wf(self) -> bool {
        let st = self.stats;
        let p = self.phase;
        &&& p == RedrawPhase::Idle || p == RedrawPhase::Drawn || p == RedrawPhase::TimerFired
            || p == RedrawPhase::AwaitCome || p == RedrawPhase::GotCome
        &&& self.count == st.datas + st.spontaneous_datas + st.spontaneous_datas_2
        &&& st.sends == st.knocks + st.datas
        &&& st.recvs == 0
        &&& st.datas <= st.comes
        &&& st.comes <= st.knocks
        &&& st.knocks <= st.fired_n
        &&& st.fired_n <= st.draws_n
        &&& p == RedrawPhase::Drawn ==> st.fired_n < st.draws_n
        &&& p == RedrawPhase::TimerFired ==> st.knocks < st.fired_n
        &&& p == RedrawPhase::AwaitCome ==> st.comes < st.knocks
        &&& p == RedrawPhase::GotCome ==> st.datas < st.comes
    }

    /// The slave as it starts, with its generator at `seed`.
    pub open spec fn initial(seed: u64) -> RedrawSlave {
        RedrawSlave { rng: seed, count: 0, phase: RedrawPhase::Idle, stats: RedrawStats::zero() }
    }

    /// The slave after drawing the pass's timeout.
    pub open spec fn drawn(self) -> RedrawSlave {
        RedrawSlave {
            rng: xorshift64_spec(self.rng),
            phase: RedrawPhase::Drawn,
            stats: RedrawStats { draws_n: (self.stats.draws_n + 1) as u64, ..self.stats },
            ..self
        }
    }

    /// The slave after spontaneous data won its select: one more event.
    pub open spec fn spontaneous_taken(self) -> RedrawSlave {
        RedrawSlave {
            count: (self.count + 1) as u64,
            phase: RedrawPhase::Idle,
            stats: RedrawStats {
                spontaneous_datas: (self.stats.spontaneous_datas + 1) as u64,
                ..self.stats
            },
            ..self
        }
    }

    /// The slave after its timer won the select.
    pub open spec fn timer_fired(self) -> RedrawSlave {
        RedrawSlave {
            phase: RedrawPhase::TimerFired,
            stats: RedrawStats { fired_n: (self.stats.fired_n + 1) as u64, ..self.stats },
            ..self
        }
    }

    /// The slave after its knock went out.
    pub open spec fn knock_sent(self) -> RedrawSlave {
        RedrawSlave {
            phase: RedrawPhase::AwaitCome,
            stats: RedrawStats {
                knocks: (self.stats.knocks + 1) as u64,
                sends: (self.stats.sends + 1) as u64,
                ..self.stats
            },
            ..self
        }
    }

    /// The slave after spontaneous data arrived while it waits for `Come`:
    /// one more event.
    pub open spec fn nested_spontaneous_taken(self) -> RedrawSlave {
        RedrawSlave {
            count: (self.count + 1) as u64,
            stats: RedrawStats {
                spontaneous_datas_2: (self.stats.spontaneous_datas_2 + 1) as u64,
                ..self.stats
            },
            ..self
        }
    }

    /// The slave after `Come` arrived.
    pub open spec fn come_taken(self) -> RedrawSlave {
        RedrawSlave {
            phase: RedrawPhase::GotCome,
            stats: RedrawStats { comes: (self.stats.comes + 1) as u64, ..self.stats },
            ..self
        }
    }

    /// The slave after its data went out: one more event, and the pass is over.
    pub open spec fn data_sent(self) -> RedrawSlave {
        RedrawSlave {
            count: (self.count + 1) as u64,
            phase: RedrawPhase::Idle,
            stats: RedrawStats {
                datas: (self.stats.datas + 1) as u64,
                sends: (self.stats.sends + 1) as u64,
                ..self.stats
            },
            ..self
        }
    }

    /// The slave after a channel closed while it waited for `Come` or sent
    /// its data: the pass ends with nothing more counted.
    pub open spec fn pass_abandoned(self) -> RedrawSlave {
        RedrawSlave { phase: RedrawPhase::Idle, ..self }
    }

    /// The slave at start, its generator at `seed`.
    pub fn new(seed: u64) -> (s: RedrawSlave)
        ensures
            s == RedrawSlave::initial(seed),
            s.wf(),
    {
        RedrawSlave { rng: seed, count: 0, phase: RedrawPhase::Idle, stats: RedrawStats::new() }
    }

    /// Starts a pass: draws its timeout, fresh, in `0..=99` milliseconds.
    /// The draw count must have room to grow.
    pub fn draw(&mut self) -> (ms: u64)
        requires
            old(self).wf(),
            old(self).phase == RedrawPhase::Idle,
            old(self).stats.draws_n < u64::MAX,
        ensures
            ms == next_draw_ms_spec(old(self).rng),
            ms < 100,
            *final(self) == old(self).drawn(),
            final(self).wf(),
    {
        let ms = next_draw_ms(&mut self.rng);
        self.phase = RedrawPhase::Drawn;
        self.stats.draws_n = self.stats.draws_n + 1;
        ms
    }

    /// Spontaneous data won the select: the pass completes one event.  The
    /// event count must have room to grow.
    pub fn on_spontaneous(&mut self)
        requires
            old(self).wf(),
            old(self).phase == RedrawPhase::Drawn,
            old(self).count < u64::MAX,
        ensures
            *final(self) == old(self).spontaneous_taken(),
            final(self).wf(),
            final(self).count == old(self).count + 1,
            final(self).stats.spontaneous_datas == old(self).stats.spontaneous_datas + 1,
            final(self).stats.spontaneous_datas_2 == old(self).stats.spontaneous_datas_2,
            final(self).stats.datas == old(self).stats.datas,
            final(self).phase == RedrawPhase::Idle,
    {
        self.count = self.count + 1;
        self.stats.spontaneous_datas = self.stats.spontaneous_datas + 1;
        self.phase = RedrawPhase::Idle;
    }

    /// The timer won the select.
    pub fn on_timer_fired(&mut self)
        requires
            old(self).wf(),
            old(self).phase == RedrawPhase::Drawn,
        ensures
            *final(self) == old(self).timer_fired(),
            final(self).wf(),
    {
        self.phase = RedrawPhase::TimerFired;
        self.stats.fired_n = self.stats.fired_n + 1;
    }

    /// The knock went out; the slave now waits for `Come`.  The send count
    /// must have room to grow.
    pub fn on_knock_sent(&mut self)
        requires
            old(self).wf(),
            old(self).phase == RedrawPhase::TimerFired,
            old(self).stats.sends < u64::MAX,
        ensures
            *final(self) == old(self).knock_sent(),
            final(self).wf(),
    {
        self.phase = RedrawPhase::AwaitCome;
        self.stats.knocks = self.stats.knocks + 1;
        self.stats.sends = self.stats.sends + 1;
    }

    /// Spontaneous data arrived while the slave waits for `Come`: one more
    /// event.  The event count must have room to grow.
    pub fn on_nested_spontaneous(&mut self)
        requires
            old(self).wf(),
            old(self).phase == RedrawPhase::AwaitCome,
            old(self).count < u64::MAX,
        ensures
            *final(self) == old(self).nested_spontaneous_taken(),
            final(self).wf(),
            final(self).count == old(self).count + 1,
            final(self).stats.spontaneous_datas_2 == old(self).stats.spontaneous_datas_2 + 1,
            final(self).stats.spontaneous_datas == old(self).stats.spontaneous_datas,
            final(self).stats.datas == old(self).stats.datas,
            final(self).phase == RedrawPhase::AwaitCome,
    {
        self.count = self.count + 1;
        self.stats.spontaneous_datas_2 = self.stats.spontaneous_datas_2 + 1;
    }

    /// `Come` arrived.
    pub fn on_come(&mut self)
        requires
            old(self).wf(),
            old(self).phase == RedrawPhase::AwaitCome,
        ensures
            *final(self) == old(self).come_taken(),
            final(self).wf(),
    {
        self.phase = RedrawPhase::GotCome;
        self.stats.comes = self.stats.comes + 1;
    }

    /// The value the slave sends with its data: its event count.
    pub fn data_value(&self) -> (v: u64)
        ensures
            v == self.count,
    {
        self.count
    }

    /// The data went out: the pass completes one event.  The event and send
    /// counts must have room to grow.
    pub fn on_data_sent(&mut self)
        requires
            old(self).wf(),
            old(self).phase == RedrawPhase::GotCome,
            old(self).count < u64::MAX,
            old(self).stats.sends < u64::MAX,
        ensures
            *final(self) == old(self).data_sent(),
            final(self).wf(),
            final(self).count == old(self).count + 1,
            final(self).stats.datas == old(self).stats.datas + 1,
            final(self).stats.sends == old(self).stats.sends + 1,
            final(self).stats.spontaneous_datas == old(self).stats.spontaneous_datas,
            final(self).stats.spontaneous_datas_2 == old(self).stats.spontaneous_datas_2,
            final(self).phase == RedrawPhase::Idle,
    {
        self.stats.datas = self.stats.datas + 1;
        self.stats.sends = self.stats.sends + 1;
        self.count = self.count + 1;
        self.phase = RedrawPhase::Idle;
    }

    /// A channel closed while the slave waited for `Come` or sent its data:
    /// the pass ends with nothing more counted.
    pub fn end_pass(&mut self)
        requires
            old(self).wf(),
            old(self).phase == RedrawPhase::AwaitCome || old(self).phase == RedrawPhase::GotCome,
        ensures
            *final(self) == old(self).pass_abandoned(),
            final(self).wf(),
    {
        self.phase = RedrawPhase::Idle;
    }
}

/// Both seeds of the redraw variant are nonzero, so neither generator ever
/// reaches the zero state, at which xorshift would stay for good: the state
/// after any number of steps is nonzero.
pub proof fn lemma_seeds_never_stall()
    ensures
        MASTER_SEED != 0,
        SLAVE_SEED != 0,
        forall|n: nat| #[trigger] xorshift64_iter(MASTER_SEED, n) != 0,
        forall|n: nat| #[trigger] xorshift64_iter(SLAVE_SEED, n) != 0,
{
    assert forall|n: nat| #[trigger] xorshift64_iter(MASTER_SEED, n) != 0 by {
        lemma_xorshift64_iter_nonzero(MASTER_SEED, n);
    }
    assert forall|n: nat| #[trigger] xorshift64_iter(SLAVE_SEED, n) != 0 by {
        lemma_xorshift64_iter_nonzero(SLAVE_SEED, n);
    }
}

} // verus!
