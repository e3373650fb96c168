use knock_come::draw::next_draw_ms;
use knock_come::redraw::{RedrawMaster, RedrawPhase, RedrawSlave, MASTER_SEED, SLAVE_SEED};

#[test]
fn redraw_master_counts_and_values() {
    let mut m = RedrawMaster::new(MASTER_SEED);
    let mut sent = Vec::new();
    let mut round = 0u64;
    while m.master_running() {
        m.draw();
        if round % 2 == 0 {
            m.on_knock();
            m.on_come_sent();
            m.on_data_received();
        } else {
            m.on_timer_fired();
            sent.push(m.data_value());
            m.on_spontaneous_sent();
        }
        round += 1;
    }
    assert_eq!(m.count, 1000);
    assert_eq!(m.stats.draws_n, 1000);
    assert_eq!(m.stats.datas + m.stats.spontaneous_datas, 1000);
    assert_eq!(m.stats.knocks, 500);
    assert_eq!(m.stats.comes, 500);
    assert_eq!(m.stats.recvs, 500);
    assert_eq!(m.stats.fired_n, 500);
    assert_eq!(m.stats.sends, 1000);
    assert_eq!(sent.len(), 500);
    for (k, v) in sent.iter().enumerate() {
        assert_eq!(*v, 2 * k as u64 + 1);
        assert!(*v < 1000);
    }
}

#[test]
fn redraw_slave_counts_and_values() {
    let mut s = RedrawSlave::new(SLAVE_SEED);
    let mut sent = Vec::new();
    // spontaneous in the outer select
    s.draw();
    s.on_spontaneous();
    // a knock, one spontaneous value while waiting, then come and data
    s.draw();
    s.on_timer_fired();
    s.on_knock_sent();
    s.on_nested_spontaneous();
    s.on_come();
    sent.push(s.data_value());
    s.on_data_sent();
    // a knock whose come channel closed
    s.draw();
    s.on_timer_fired();
    s.on_knock_sent();
    s.end_pass();
    assert_eq!(s.phase, RedrawPhase::Idle);
    assert_eq!(sent, vec![2]);
    assert_eq!(s.count, 3);
    assert_eq!(s.count, s.stats.datas + s.stats.spontaneous_datas + s.stats.spontaneous_datas_2);
    assert_eq!(s.stats.sends, s.stats.knocks + s.stats.datas);
    assert_eq!((s.stats.draws_n, s.stats.fired_n, s.stats.knocks, s.stats.comes, s.stats.datas), (3, 2, 2, 1, 1));
    assert_eq!(s.stats.recvs, 0);
}

#[test]
fn redraw_draws_fixed_by_seed() {
    let mut a = RedrawMaster::new(MASTER_SEED);
    let mut b = RedrawMaster::new(MASTER_SEED);
    let mut gen = MASTER_SEED;
    for i in 0..500 {
        let da = a.draw();
        let db = b.draw();
        assert_eq!(da, db);
        assert_eq!(da, next_draw_ms(&mut gen));
        // the two runs take different branches; the draws do not care
        if i % 2 == 0 {
            a.on_knock();
            a.on_come_sent();
            a.on_data_received();
            b.on_timer_fired();
            b.on_spontaneous_sent();
        } else {
            a.on_timer_fired();
            a.on_spontaneous_sent();
            b.on_knock();
            b.on_come_sent();
            b.on_data_received();
        }
    }
}
