use telemeter::ewma::EwmaEngine;
use telemeter::meter::{MeterSnapshot, StdMeter};
use telemeter::metric::{Metric, MetricValue};

#[test]
fn zero() {
    let m: StdMeter = StdMeter::new();
    let s: MeterSnapshot = m.snapshot();

    assert_eq!(s.count, 0);
}

#[test]
fn non_zero() {
    let mut m: StdMeter = StdMeter::new();
    m.mark(3);

    let s: MeterSnapshot = m.snapshot();

    assert_eq!(s.count, 3);
}

#[test]
fn snapshot() {
    let mut m: StdMeter = StdMeter::new();
    m.mark(1);
    m.mark(1);

    let s = m.snapshot();

    m.mark(1);

    assert_eq!(s.count, 2);
    assert_eq!(m.snapshot().count, 3);
}

#[test]
fn decay() {
    let mut m: StdMeter = StdMeter::new();

    m.tick();
}

#[test]
fn marks_accumulate() {
    let mut m = StdMeter::new_at(0);
    let mut expected: i64 = 0;
    for n in 1..=10i64 {
        m.mark_at(n, 0);
        expected += n;
    }
    assert_eq!(m.count(), expected);
    assert_eq!(m.count(), 55);
}

#[test]
fn rate_windows() {
    let mut m = StdMeter::new_at(1000);
    m.mark_at(10, 1000);
    m.tick_at(1005);
    // First tick bootstraps every engine with the instantaneous rate:
    // 10 events / 5 s = 2 events per second = 120 per minute.
    let per_minute_ppm = 120 * 1_000_000u128;
    assert_eq!(m.rate(1), per_minute_ppm);
    assert_eq!(m.rate(5), per_minute_ppm);
    assert_eq!(m.rate(15), per_minute_ppm);
    assert_eq!(m.rate(7), 0);
    assert_eq!(m.rate(0), 0);
}

#[test]
fn mean_is_count_over_elapsed() {
    let mut m = StdMeter::new_at(100);
    m.mark_at(50, 110);
    // 50 events over 10 seconds: 5 events per second.
    assert_eq!(m.mean(), 5_000_000);
}

#[test]
fn mean_floors_elapsed_at_one_second() {
    let mut m = StdMeter::new_at(100);
    m.mark_at(7, 100);
    assert_eq!(m.mean(), 7_000_000);
}

#[test]
fn engine_decays_geometrically() {
    // alpha = 0.5 in parts-per-million, five-second ticks.
    let mut e = EwmaEngine::new(500_000, 5);
    e.update(10);
    e.tick();
    // Bootstrap: 10 events / 5 s = 2 events per second.
    assert_eq!(e.rate_ppm, 2_000_000);
    e.tick();
    assert_eq!(e.rate_ppm, 1_000_000);
    e.tick();
    assert_eq!(e.rate_ppm, 500_000);
    assert_eq!(e.rate_per_minute(), 30_000_000);
}

#[test]
fn engine_update_only_accumulates() {
    let mut e = EwmaEngine::new(79_956, 5);
    e.update(3);
    e.update(4);
    assert_eq!(e.pending, 7);
    assert_eq!(e.rate_ppm, 0);
}

#[test]
fn default_is_fresh() {
    let m = StdMeter::default();
    let s = m.snapshot();
    assert_eq!(s.count, 0);
    assert_eq!(s.mean, 0);
    assert_eq!(s.rates, [0, 0, 0]);
}

#[test]
fn export_carries_the_snapshot() {
    let mut m = StdMeter::new_at(0);
    m.mark_at(2, 0);
    match m.export_metric() {
        MetricValue::Meter(s) => assert_eq!(s.count, 2),
        _ => panic!("a meter exports a meter snapshot"),
    }
}

fn read_count_via_trait<M: telemeter::metric::Meter>(m: &M) -> i64 {
    m.count()
}

#[test]
fn trait_reads_match_inherent_reads() {
    let mut m = StdMeter::new_at(0);
    m.mark_at(9, 0);
    assert_eq!(read_count_via_trait(&m), 9);
}
