//! The periodic counters of master and slave, and the reports that clear them.
use vstd::prelude::*;

verus! {

/// What the master counts between two reports.
#[derive(Clone, Copy, Debug, PartialEq, Eq, Structural)]
pub struct MasterCnts {
    /// Knocks taken from the slave.
    pub sm_knock_cnt: u64,
    /// `Come`s sent to the slave.
    pub ms_come_cnt: u64,
    /// Data received from the slave.
    pub sm_data_cnt: u32,
    /// Spontaneous data sent to the slave.
    pub ms_spontaneous_data_cnt: u32,
    /// Spontaneous data that could not be sent.
    pub ms_spontaneous_data_err_cnt: u32,
    /// Updates at which more data came from the slave than went out spontaneously.
    pub master_fatter_cnt: u32,
    /// Updates at which both streams were equal.
    pub master_same_cnt: u32,
    /// Updates at which less data came from the slave than went out spontaneously.
    pub master_thinner_cnt: u32,
}

/// What the slave counts between two reports.
#[derive(Clone, Copy, Debug, PartialEq, Eq, Structural)]
pub struct SlaveCnts {
    /// Knocks sent to the master.
    pub sm_knock_cnt: u64,
    /// `Come`s received from the master.
    pub ms_come_cnt: u64,
    /// Data sent to the master.
    pub sm_data_cnt: u64,
    /// Spontaneous data received in the outer select.
    pub ms_spontaneous_data_cnt_1: u64,
    /// Spontaneous data received while waiting for `Come` in the nested select.
    pub ms_spontaneous_data_cnt_2: u64,
}

impl MasterCnts {
    /// All counters zero.
    pub open spec fn zero() -> MasterCnts {
        MasterCnts {
            sm_knock_cnt: 0,
            ms_come_cnt: 0,
            sm_data_cnt: 0,
            ms_spontaneous_data_cnt: 0,
            ms_spontaneous_data_err_cnt: 0,
            master_fatter_cnt: 0,
            master_same_cnt: 0,
            master_thinner_cnt: 0,
        }
    }

    /// Counters that all start at zero.
    pub fn new() -> (c: MasterCnts)
        ensures
            c == MasterCnts::zero(),
    {
        MasterCnts {
            sm_knock_cnt: 0,
            ms_come_cnt: 0,
            sm_data_cnt: 0,
            ms_spontaneous_data_cnt: 0,
            ms_spontaneous_data_err_cnt: 0,
            master_fatter_cnt: 0,
            master_same_cnt: 0,
            master_thinner_cnt: 0,
        }
    }

    /// The counters after one fairness update: the one of the three fairness
    /// counters that the comparison of the data streams selects grows by one.
    pub open spec fn fairness_updated(self) -> MasterCnts {
        if self.sm_data_cnt > self.ms_spontaneous_data_cnt {
            MasterCnts { master_fatter_cnt: (self.master_fatter_cnt + 1) as u32, ..self }
        } else if self.sm_data_cnt < self.ms_spontaneous_data_cnt {
            MasterCnts { master_thinner_cnt: (self.master_thinner_cnt + 1) as u32, ..self }
        } else {
            MasterCnts { master_same_cnt: (self.master_same_cnt + 1) as u32, ..self }
        }
    }

    /// Whether the fairness counter that the next update selects is below its limit.
    pub open spec fn fairness_has_room(self) -> bool {
        &&& self.sm_data_cnt > self.ms_spontaneous_data_cnt ==> self.master_fatter_cnt < u32::MAX
        &&& self.sm_data_cnt < self.ms_spontaneous_data_cnt ==> self.master_thinner_cnt < u32::MAX
        &&& self.sm_data_cnt == self.ms_spontaneous_data_cnt ==> self.master_same_cnt < u32::MAX
    }
}

impl Default for MasterCnts {
    fn default() -> (c: MasterCnts)
        ensures
            c == MasterCnts::zero(),
    {
        MasterCnts::new()
    }
}

impl SlaveCnts {
    /// All counters zero.
    pub open spec fn zero() -> SlaveCnts {
        SlaveCnts {
            sm_knock_cnt: 0,
            ms_come_cnt: 0,
            sm_data_cnt: 0,
            ms_spontaneous_data_cnt_1: 0,
            ms_spontaneous_data_cnt_2: 0,
        }
    }

    /// Counters that all start at zero.
    pub fn new() -> (c: SlaveCnts)
        ensures
            c == SlaveCnts::zero(),
    {
        SlaveCnts {
            sm_knock_cnt: 0,
            ms_come_cnt: 0,
            sm_data_cnt: 0,
            ms_spontaneous_data_cnt_1: 0,
            ms_spontaneous_data_cnt_2: 0,
        }
    }
}

impl Default for SlaveCnts {
    fn default() -> (c: SlaveCnts)
        ensures
            c == SlaveCnts::zero(),
    {
        SlaveCnts::new()
    }
}

/// Records in the master's fairness counters how the data received from the
/// slave compares with the spontaneous data sent: more, fewer, or as many.
pub fn update_master_view_fairness_cnts(cnts_per: &mut MasterCnts)
    requires
        old(cnts_per).fairness_has_room(),
    ensures
        *final(cnts_per) == old(cnts_per).fairness_updated(),
        old(cnts_per).sm_data_cnt > old(cnts_per).ms_spontaneous_data_cnt ==> final(cnts_per).master_fatter_cnt
            == old(cnts_per).master_fatter_cnt + 1 && final(cnts_per).master_same_cnt == old(cnts_per).master_same_cnt
            && final(cnts_per).master_thinner_cnt == old(cnts_per).master_thinner_cnt,
        old(cnts_per).sm_data_cnt < old(cnts_per).ms_spontaneous_data_cnt ==> final(cnts_per).master_thinner_cnt
            == old(cnts_per).master_thinner_cnt + 1 && final(cnts_per).master_same_cnt == old(cnts_per).master_same_cnt
            && final(cnts_per).master_fatter_cnt == old(cnts_per).master_fatter_cnt,
        old(cnts_per).sm_data_cnt == old(cnts_per).ms_spontaneous_data_cnt ==> final(cnts_per).master_same_cnt
            == old(cnts_per).master_same_cnt + 1 && final(cnts_per).master_fatter_cnt == old(cnts_per).master_fatter_cnt
            && final(cnts_per).master_thinner_cnt == old(cnts_per).master_thinner_cnt,
        final(cnts_per).sm_knock_cnt == old(cnts_per).sm_knock_cnt,
        final(cnts_per).ms_come_cnt == old(cnts_per).ms_come_cnt,
        final(cnts_per).sm_data_cnt == old(cnts_per).sm_data_cnt,
        final(cnts_per).ms_spontaneous_data_cnt == old(cnts_per).ms_spontaneous_data_cnt,
        final(cnts_per).ms_spontaneous_data_err_cnt == old(cnts_per).ms_spontaneous_data_err_cnt,
{
    if cnts_per.sm_data_cnt > cnts_per.ms_spontaneous_data_cnt {
        cnts_per.master_fatter_cnt += 1;
    } else if cnts_per.sm_data_cnt < cnts_per.ms_spontaneous_data_cnt {
        cnts_per.master_thinner_cnt += 1;
    } else {
        cnts_per.master_same_cnt += 1;
    }
}

/// How the data received by the master compares with the spontaneous data it sent.
#[derive(Clone, Copy, Debug, PartialEq, Eq, Structural)]
pub enum Filling {
    /// More data came from the slave.
    MasterInc,
    /// Less data came from the slave.
    MasterDec,
    /// As much data came from the slave as went to it.
    MasterEql,
}

/// The filling that counters `c` show.
pub open spec fn filling_of(c: MasterCnts) -> Filling {
    if c.sm_data_cnt > c.ms_spontaneous_data_cnt {
        Filling::MasterInc
    } else if c.sm_data_cnt < c.ms_spontaneous_data_cnt {
        Filling::MasterDec
    } else {
        Filling::MasterEql
    }
}

impl Filling {
    /// The label of the filling in the master's counter line.
    pub fn label(&self) -> (s: &'static str)
        ensures
            *self == Filling::MasterInc ==> s@ == "MASTER-INC"@,
            *self == Filling::MasterDec ==> s@ == "MASTER-DEC"@,
            *self == Filling::MasterEql ==> s@ == "MASTER-EQL"@,
    {
        match self {
            Filling::MasterInc => "MASTER-INC",
            Filling::MasterDec => "MASTER-DEC",
            Filling::MasterEql => "MASTER-EQL",
        }
    }
}

/// One report line of the master: who asked for it, and the counters.
#[derive(Clone, Copy, Debug, PartialEq, Eq, Structural)]
pub struct MasterReport {
    /// Where the report was asked for: 0 at start, 1 after slave data, 2 after spontaneous data.
    pub caller: u64,
    pub sm_knock_cnt: u64,
    pub ms_come_cnt: u64,
    pub sm_data_cnt: u32,
    pub ms_spontaneous_data_cnt: u32,
    pub ms_spontaneous_data_err_cnt: u32,
    /// How the two data streams compare.
    pub filling: Filling,
}

/// The report that counters `c` give when asked for by `caller`.
pub open spec fn master_report_of(caller: u64, c: MasterCnts) -> MasterReport {
    MasterReport {
        caller: caller,
        sm_knock_cnt: c.sm_knock_cnt,
        ms_come_cnt: c.ms_come_cnt,
        sm_data_cnt: c.sm_data_cnt,
        ms_spontaneous_data_cnt: c.ms_spontaneous_data_cnt,
        ms_spontaneous_data_err_cnt: c.ms_spontaneous_data_err_cnt,
        filling: filling_of(c),
    }
}

/// One report line of the slave: who asked for it, the counters, and the sum
/// of the two spontaneous-data counters.
#[derive(Clone, Copy, Debug, PartialEq, Eq, Structural)]
pub struct SlaveReport {
    /// Where the report was asked for: 20 at start, 21 after a knock.
    pub caller: u64,
    pub sm_knock_cnt: u64,
    pub ms_come_cnt: u64,
    pub sm_data_cnt: u64,
    pub ms_spontaneous_data_cnt_1: u64,
    pub ms_spontaneous_data_cnt_2: u64,
    /// `ms_spontaneous_data_cnt_1 + ms_spontaneous_data_cnt_2`.
    pub ms_spontaneous_data_sum: u64,
}

/// The report that counters `c` give when asked for by `caller`.
pub open spec fn slave_report_of(caller: u64, c: SlaveCnts) -> SlaveReport {
    SlaveReport {
        caller: caller,
        sm_knock_cnt: c.sm_knock_cnt,
        ms_come_cnt: c.ms_come_cnt,
        sm_data_cnt: c.sm_data_cnt,
        ms_spontaneous_data_cnt_1: c.ms_spontaneous_data_cnt_1,
        ms_spontaneous_data_cnt_2: c.ms_spontaneous_data_cnt_2,
        ms_spontaneous_data_sum: (c.ms_spontaneous_data_cnt_1 + c.ms_spontaneous_data_cnt_2) as u64,
    }
}

/// Takes the master's report for `caller` and clears every counter.
pub fn print_and_clear_master_cnts(caller: u64, cnts_per: &mut MasterCnts) -> (report: MasterReport)
    ensures
        report == master_report_of(caller, *old(cnts_per)),
        report.caller == caller,
        report.sm_knock_cnt == old(cnts_per).sm_knock_cnt,
        report.ms_come_cnt == old(cnts_per).ms_come_cnt,
        report.sm_data_cnt == old(cnts_per).sm_data_cnt,
        report.ms_spontaneous_data_cnt == old(cnts_per).ms_spontaneous_data_cnt,
        report.ms_spontaneous_data_err_cnt == old(cnts_per).ms_spontaneous_data_err_cnt,
        (report.filling == Filling::MasterInc) <==> old(cnts_per).sm_data_cnt > old(cnts_per).ms_spontaneous_data_cnt,
        (report.filling == Filling::MasterDec) <==> old(cnts_per).sm_data_cnt < old(cnts_per).ms_spontaneous_data_cnt,
        (report.filling == Filling::MasterEql) <==> old(cnts_per).sm_data_cnt == old(cnts_per).ms_spontaneous_data_cnt,
        *final(cnts_per) == MasterCnts::zero(),
        final(cnts_per).sm_knock_cnt == 0 && final(cnts_per).ms_come_cnt == 0 && final(cnts_per).sm_data_cnt == 0,
        final(cnts_per).ms_spontaneous_data_cnt == 0 && final(cnts_per).ms_spontaneous_data_err_cnt == 0,
        final(cnts_per).master_fatter_cnt == 0 && final(cnts_per).master_same_cnt == 0
            && final(cnts_per).master_thinner_cnt == 0,
{
    let filling = if cnts_per.sm_data_cnt > cnts_per.ms_spontaneous_data_cnt {
        Filling::MasterInc
    } else if cnts_per.sm_data_cnt < cnts_per.ms_spontaneous_data_cnt {
        Filling::MasterDec
    } else {
        Filling::MasterEql
    };
    let report = MasterReport {
        caller: caller,
        sm_knock_cnt: cnts_per.sm_knock_cnt,
        ms_come_cnt: cnts_per.ms_come_cnt,
        sm_data_cnt: cnts_per.sm_data_cnt,
        ms_spontaneous_data_cnt: cnts_per.ms_spontaneous_data_cnt,
        ms_spontaneous_data_err_cnt: cnts_per.ms_spontaneous_data_err_cnt,
        filling: filling,
    };
    *cnts_per = MasterCnts::new();
    report
}

/// Takes the slave's report for `caller` and clears every counter.  The sum
/// of the two spontaneous-data counters must fit in a `u64`.
pub fn print_and_clear_slave_cnts(caller: u64, cnts_per: &mut SlaveCnts) -> (report: SlaveReport)
    requires
        old(cnts_per).ms_spontaneous_data_cnt_1 + old(cnts_per).ms_spontaneous_data_cnt_2 <= u64::MAX,
    ensures
        report == slave_report_of(caller, *old(cnts_per)),
        report.caller == caller,
        report.sm_knock_cnt == old(cnts_per).sm_knock_cnt,
        report.ms_come_cnt == old(cnts_per).ms_come_cnt,
        report.sm_data_cnt == old(cnts_per).sm_data_cnt,
        report.ms_spontaneous_data_cnt_1 == old(cnts_per).ms_spontaneous_data_cnt_1,
        report.ms_spontaneous_data_cnt_2 == old(cnts_per).ms_spontaneous_data_cnt_2,
        report.ms_spontaneous_data_sum == old(cnts_per).ms_spontaneous_data_cnt_1 + old(cnts_per).ms_spontaneous_data_cnt_2,
        *final(cnts_per) == SlaveCnts::zero(),
        final(cnts_per).sm_knock_cnt == 0 && final(cnts_per).ms_come_cnt == 0 && final(cnts_per).sm_data_cnt == 0,
        final(cnts_per).ms_spontaneous_data_cnt_1 == 0 && final(cnts_per).ms_spontaneous_data_cnt_2 == 0,
{
    let report = SlaveReport {
        caller: caller,
        sm_knock_cnt: cnts_per.sm_knock_cnt,
        ms_come_cnt: cnts_per.ms_come_cnt,
        sm_data_cnt: cnts_per.sm_data_cnt,
        ms_spontaneous_data_cnt_1: cnts_per.ms_spontaneous_data_cnt_1,
        ms_spontaneous_data_cnt_2: cnts_per.ms_spontaneous_data_cnt_2,
        ms_spontaneous_data_sum: cnts_per.ms_spontaneous_data_cnt_1 + cnts_per.ms_spontaneous_data_cnt_2,
    };
    *cnts_per = SlaveCnts::new();
    report
}

/// A change to the master's counters between fairness updates.
#[derive(Clone, Copy, Debug, PartialEq, Eq, Structural)]
pub enum FairnessEvent {
    /// A call of `update_master_view_fairness_cnts`.
    Update,
    /// The data count is set to a value.
    SetDataCnt(u32),
    /// The spontaneous-data count is set to a value.
    SetSpontaneousCnt(u32),
}

/// The counters after `events`, starting from `c`; `None` where an update
/// finds its fairness counter at its limit.
pub open spec fn fairness_run(c: MasterCnts, events: Seq<FairnessEvent>) -> Option<MasterCnts>
    decreases events.len(),
{
    if events.len() == 0 {
        Some(c)
    } else {
        match fairness_run(c, events.drop_last()) {
            None => None,
            Some(c1) => match events.last() {
                FairnessEvent::Update => if c1.fairness_has_room() {
                    Some(c1.fairness_updated())
                } else {
                    None
                },
                FairnessEvent::SetDataCnt(v) => Some(MasterCnts { sm_data_cnt: v, ..c1 }),
                FairnessEvent::SetSpontaneousCnt(v) => Some(MasterCnts { ms_spontaneous_data_cnt: v, ..c1 }),
            },
        }
    }
}

/// How many updates `events` holds.
pub open spec fn updates_in(events: Seq<FairnessEvent>) -> nat
    decreases events.len(),
{
    if events.len() == 0 {
        0
    } else {
        updates_in(events.drop_last()) + if events.last() == FairnessEvent::Update { 1nat } else { 0nat }
    }
}

/// Starting from cleared counters, whatever the data and spontaneous-data
/// counts do in between, the three fairness counters always add up to the
/// number of fairness updates made.
pub proof fn lemma_fairness_counts_updates(events: Seq<FairnessEvent>)
    requires
        fairness_run(MasterCnts::zero(), events) is Some,
    ensures
        ({
            let c = fairness_run(MasterCnts::zero(), events)->Some_0;
            c.master_fatter_cnt + c.master_same_cnt + c.master_thinner_cnt == updates_in(events)
        }),
    decreases events.len(),
{
    if events.len() > 0 {
        lemma_fairness_counts_updates(events.drop_last());
    }
}

/// A master report carries each counter as it was, and its filling says how
/// the data received compares with the spontaneous data sent, whatever the
/// count of failed sends: more, fewer, or as many.
pub proof fn lemma_master_report_fields(caller: u64, c: MasterCnts)
    ensures
        master_report_of(caller, c).caller == caller,
        master_report_of(caller, c).sm_knock_cnt == c.sm_knock_cnt,
        master_report_of(caller, c).ms_come_cnt == c.ms_come_cnt,
        master_report_of(caller, c).sm_data_cnt == c.sm_data_cnt,
        master_report_of(caller, c).ms_spontaneous_data_cnt == c.ms_spontaneous_data_cnt,
        master_report_of(caller, c).ms_spontaneous_data_err_cnt == c.ms_spontaneous_data_err_cnt,
        (master_report_of(caller, c).filling == Filling::MasterInc) <==> c.sm_data_cnt > c.ms_spontaneous_data_cnt,
        (master_report_of(caller, c).filling == Filling::MasterDec) <==> c.sm_data_cnt < c.ms_spontaneous_data_cnt,
        (master_report_of(caller, c).filling == Filling::MasterEql) <==> c.sm_data_cnt == c.ms_spontaneous_data_cnt,
        forall|e: u32| #[trigger] master_report_of(caller, MasterCnts { ms_spontaneous_data_err_cnt: e, ..c }).filling
            == master_report_of(caller, c).filling,
{
}

/// A slave report carries each counter as it was, the outer-select and the
/// nested-select spontaneous counts each in its own field, and their sum.
pub proof fn lemma_slave_report_fields(caller: u64, c: SlaveCnts)
    requires
        c.ms_spontaneous_data_cnt_1 + c.ms_spontaneous_data_cnt_2 <= u64::MAX,
    ensures
        slave_report_of(caller, c).caller == caller,
        slave_report_of(caller, c).sm_knock_cnt == c.sm_knock_cnt,
        slave_report_of(caller, c).ms_come_cnt == c.ms_come_cnt,
        slave_report_of(caller, c).sm_data_cnt == c.sm_data_cnt,
        slave_report_of(caller, c).ms_spontaneous_data_cnt_1 == c.ms_spontaneous_data_cnt_1,
        slave_report_of(caller, c).ms_spontaneous_data_cnt_2 == c.ms_spontaneous_data_cnt_2,
        slave_report_of(caller, c).ms_spontaneous_data_sum == c.ms_spontaneous_data_cnt_1 + c.ms_spontaneous_data_cnt_2,
{
}

/// A fairness update raises by one the counter that the comparison of the
/// two data streams selects (more data received: fatter; fewer: thinner; as
/// many: same) and changes nothing else.
pub proof fn lemma_fairness_update_selects(c: MasterCnts)
    requires
        c.fairness_has_room(),
    ensures
        c.sm_data_cnt > c.ms_spontaneous_data_cnt ==> c.fairness_updated() == (MasterCnts {
            master_fatter_cnt: (c.master_fatter_cnt + 1) as u32,
            ..c
        }),
        c.sm_data_cnt < c.ms_spontaneous_data_cnt ==> c.fairness_updated() == (MasterCnts {
            master_thinner_cnt: (c.master_thinner_cnt + 1) as u32,
            ..c
        }),
        c.sm_data_cnt == c.ms_spontaneous_data_cnt ==> c.fairness_updated() == (MasterCnts {
            master_same_cnt: (c.master_same_cnt + 1) as u32,
            ..c
        }),
{
}

} // verus!
