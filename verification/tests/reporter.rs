use telemeter::meter::StdMeter;
use telemeter::metric::{HistogramSnapshot, StdCounter, StdGauge};
use telemeter::reporter::{
    into_batches, next_state, ConnEvent, ConnState, MetricEntry, Reporter,
};

#[test]
fn new_reporter_is_empty() {
    let r = Reporter::new("web", "127.0.0.1:2003", "app", 1024);
    assert_eq!(r.app_name, "web");
    assert_eq!(r.address, "127.0.0.1:2003");
    assert_eq!(r.prefix, b"app".to_vec());
    assert_eq!(r.max_batch_bytes, 1024);
    assert_eq!(r.render_lines(0).len(), 0);
}

#[test]
fn duplicate_name_keeps_first_registration() {
    let mut r = Reporter::new("web", "127.0.0.1:2003", "app", 1024);

    let mut m1 = StdMeter::new_at(0);
    m1.mark_at(3, 0);
    assert!(r.add("a", MetricEntry::Meter(m1)).is_ok());

    let mut m2 = StdMeter::new_at(0);
    m2.mark_at(7, 0);
    assert!(r.add("a", MetricEntry::Meter(m2)).is_err());

    // A subsequent export of "a" still reflects the first meter.
    let lines = r.render_lines(100);
    assert_eq!(lines.len(), 5);
    assert_eq!(lines[0], b"app.a.count 3 100\n".to_vec());
}

#[test]
fn distinct_names_both_registered() {
    let mut r = Reporter::new("web", "127.0.0.1:2003", "app", 1024);
    assert!(r.add("a", MetricEntry::Counter(StdCounter::new())).is_ok());
    assert!(r.add("b", MetricEntry::Counter(StdCounter::new())).is_ok());
    assert_eq!(r.render_lines(0).len(), 2);
}

#[test]
fn counter_and_gauge_render_one_facetless_line() {
    let mut r = Reporter::new("web", "127.0.0.1:2003", "app", 1024);
    let mut c = StdCounter::new();
    c.inc(5);
    let mut g = StdGauge::new();
    g.set(-3);
    r.add("c", MetricEntry::Counter(c)).unwrap();
    r.add("g", MetricEntry::Gauge(g)).unwrap();

    let lines = r.render_lines(77);
    assert_eq!(lines.len(), 2);
    assert_eq!(lines[0], b"app.c 5 77\n".to_vec());
    assert_eq!(lines[1], b"app.g -3 77\n".to_vec());
}

#[test]
fn meter_renders_five_facets() {
    let mut r = Reporter::new("web", "127.0.0.1:2003", "app", 4096);
    let mut m = StdMeter::new_at(0);
    m.mark_at(10, 10);
    r.add("m", MetricEntry::Meter(m)).unwrap();

    let lines = r.render_lines(42);
    assert_eq!(lines.len(), 5);
    assert_eq!(lines[0], b"app.m.count 10 42\n".to_vec());
    assert_eq!(lines[1], b"app.m.rate1 0.000000 42\n".to_vec());
    assert_eq!(lines[2], b"app.m.rate5 0.000000 42\n".to_vec());
    assert_eq!(lines[3], b"app.m.rate15 0.000000 42\n".to_vec());
    assert_eq!(lines[4], b"app.m.mean 1.000000 42\n".to_vec());
}

#[test]
fn histogram_renders_each_facet() {
    let mut r = Reporter::new("web", "127.0.0.1:2003", "app", 4096);
    let h = HistogramSnapshot {
        facets: vec![(b"p50".to_vec(), 10), (b"p99".to_vec(), 20)],
    };
    r.add("h", MetricEntry::Histogram(h)).unwrap();

    let lines = r.render_lines(9);
    assert_eq!(lines.len(), 2);
    assert_eq!(lines[0], b"app.h.p50 10 9\n".to_vec());
    assert_eq!(lines[1], b"app.h.p99 20 9\n".to_vec());
}

#[test]
fn batches_pack_up_to_the_cap() {
    let lines = vec![b"aaaa".to_vec(), b"bbbb".to_vec(), b"cccc".to_vec()];
    let batches = into_batches(&lines, 8);
    assert_eq!(batches.len(), 2);
    assert_eq!(batches[0], b"aaaabbbb".to_vec());
    assert_eq!(batches[1], b"cccc".to_vec());
}

#[test]
fn oversized_line_becomes_its_own_batch() {
    let lines = vec![b"ab".to_vec(), b"abcdef".to_vec(), b"cd".to_vec()];
    let batches = into_batches(&lines, 4);
    assert_eq!(batches.len(), 3);
    assert_eq!(batches[0], b"ab".to_vec());
    assert_eq!(batches[1], b"abcdef".to_vec());
    assert_eq!(batches[2], b"cd".to_vec());
}

#[test]
fn no_lines_no_batches() {
    let lines: Vec<Vec<u8>> = Vec::new();
    let batches = into_batches(&lines, 16);
    assert_eq!(batches.len(), 0);
}

#[test]
fn connection_state_machine() {
    assert_eq!(
        next_state(ConnState::Disconnected, ConnEvent::ConnectSucceeded),
        ConnState::Connected
    );
    assert_eq!(
        next_state(ConnState::Disconnected, ConnEvent::ConnectFailed),
        ConnState::Disconnected
    );
    assert_eq!(
        next_state(ConnState::Connected, ConnEvent::WriteSucceeded),
        ConnState::Connected
    );
    assert_eq!(
        next_state(ConnState::Connected, ConnEvent::WriteFailed),
        ConnState::Disconnected
    );
}

#[test]
fn batches_concatenate_to_the_rendered_lines() {
    let mut r = Reporter::new("web", "127.0.0.1:2003", "app", 32);
    let mut m = StdMeter::new_at(0);
    m.mark_at(1, 1);
    r.add("m", MetricEntry::Meter(m)).unwrap();

    let lines = r.render_lines(5);
    let batches = into_batches(&lines, r.max_batch_bytes);

    let flat_lines: Vec<u8> = lines.concat();
    let flat_batches: Vec<u8> = batches.concat();
    assert_eq!(flat_batches, flat_lines);
    for b in &batches {
        assert!(b.len() <= 32 || lines.contains(b));
    }
}
