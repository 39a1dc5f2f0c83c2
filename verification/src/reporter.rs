//! The reporter: a name-keyed registry of metrics, a wire-format encoder
//! walk, byte batching, and the transport's two-state connection machine.
//! The socket itself lives outside; this module decides exactly what bytes
//! each cycle sends.

use vstd::prelude::*;
use vstd::string::StringSliceAdditionalSpecFns;
use vstd::slice::slice_to_vec;
use crate::codec::{
    dec_int, dec_scaled, encode_line_bytes, encode_line_scaled_bytes, line_spec, push_bytes,
};
use crate::meter::{MeterSnapshot, StdMeter};
use crate::metric::{HistogramSnapshot, StdCounter, StdGauge};

verus! {

/// `add` found the name already registered; the prior registration is
/// untouched.
#[derive(Clone, Copy, Debug, PartialEq, Eq, Structural)]
pub struct DuplicateNameError;

/// A report cycle failed: the transport could not be established, or a
/// write failed mid-cycle. Either way the remainder of the cycle is
/// abandoned; the next scheduled cycle is the retry.
#[derive(Clone, Copy, Debug, PartialEq, Eq, Structural)]
pub enum ReportError {
    Connection,
    Write,
}

/// The transport's connection state. There are no other states.
#[derive(Clone, Copy, Debug, PartialEq, Eq, Structural)]
pub enum ConnState {
    Disconnected,
    Connected,
}

/// What the transport just observed.
#[derive(Clone, Copy, Debug, PartialEq, Eq, Structural)]
pub enum ConnEvent {
    ConnectSucceeded,
    ConnectFailed,
    WriteSucceeded,
    WriteFailed,
}

/// The connection state machine: a successful connect enters `Connected`,
/// any failure falls back to `Disconnected`, a successful write keeps the
/// state as it is.
pub open spec fn conn_transition(s: ConnState, e: ConnEvent) -> ConnState {
    match e {
        ConnEvent::ConnectSucceeded => ConnState::Connected,
        ConnEvent::ConnectFailed => ConnState::Disconnected,
        ConnEvent::WriteSucceeded => s,
        ConnEvent::WriteFailed => ConnState::Disconnected,
    }
}

/// Advance the connection state machine by one observed event.
pub fn next_state(s: ConnState, e: ConnEvent) -> (r: ConnState)
    ensures
        r == conn_transition(s, e),
{
    match e {
        ConnEvent::ConnectSucceeded => ConnState::Connected,
        ConnEvent::ConnectFailed => ConnState::Disconnected,
        ConnEvent::WriteSucceeded => s,
        ConnEvent::WriteFailed => ConnState::Disconnected,
    }
}

/// A registry entry: one of the closed set of concrete metric kinds the
/// reporter can own.
pub enum MetricEntry {
    Counter(StdCounter),
    Gauge(StdGauge),
    Meter(StdMeter),
    Histogram(HistogramSnapshot),
}

/// The facet name of a meter's cumulative count.
pub open spec fn facet_count() -> Seq<u8> {
    seq![99u8, 111u8, 117u8, 110u8, 116u8]
}

/// The facet name of a meter's one-minute rate.
pub open spec fn facet_rate1() -> Seq<u8> {
    seq![114u8, 97u8, 116u8, 101u8, 49u8]
}

/// The facet name of a meter's five-minute rate.
pub open spec fn facet_rate5() -> Seq<u8> {
    seq![114u8, 97u8, 116u8, 101u8, 53u8]
}

/// The facet name of a meter's fifteen-minute rate.
pub open spec fn facet_rate15() -> Seq<u8> {
    seq![114u8, 97u8, 116u8, 101u8, 49u8, 53u8]
}

/// The facet name of a meter's mean rate.
pub open spec fn facet_mean() -> Seq<u8> {
    seq![109u8, 101u8, 97u8, 110u8]
}

/// The five protocol lines a meter snapshot flattens into.
pub open spec fn meter_lines(
    prefix: Seq<u8>,
    name: Seq<u8>,
    s: MeterSnapshot,
    ts: nat,
) -> Seq<Seq<u8>> {
    seq![
        line_spec(prefix, name, facet_count(), dec_int(s.count as int), ts),
        line_spec(prefix, name, facet_rate1(), dec_scaled(s.rates[0] as nat), ts),
        line_spec(prefix, name, facet_rate5(), dec_scaled(s.rates[1] as nat), ts),
        line_spec(prefix, name, facet_rate15(), dec_scaled(s.rates[2] as nat), ts),
        line_spec(prefix, name, facet_mean(), dec_scaled(s.mean as nat), ts),
    ]
}

/// One protocol line per histogram facet, in facet order.
pub open spec fn hist_lines(
    prefix: Seq<u8>,
    name: Seq<u8>,
    facets: Seq<(Vec<u8>, i64)>,
    ts: nat,
) -> Seq<Seq<u8>>
    decreases facets.len(),
{
    if facets.len() == 0 {
        Seq::empty()
    } else {
        hist_lines(prefix, name, facets.drop_last(), ts).push(
            line_spec(prefix, name, facets.last().0@, dec_int(facets.last().1 as int), ts),
        )
    }
}

/// The protocol lines one registry entry flattens into: single-valued
/// metrics yield one facet-less line, a meter yields its five facets, a
/// histogram one line per facet.
pub open spec fn entry_lines(
    prefix: Seq<u8>,
    name: Seq<u8>,
    m: MetricEntry,
    ts: nat,
) -> Seq<Seq<u8>> {
    match m {
        MetricEntry::Counter(c) => seq![
            line_spec(prefix, name, Seq::<u8>::empty(), dec_int(c.value as int), ts),
        ],
        MetricEntry::Gauge(g) => seq![
            line_spec(prefix, name, Seq::<u8>::empty(), dec_int(g.value as int), ts),
        ],
        MetricEntry::Meter(mt) => meter_lines(prefix, name, mt.data, ts),
        MetricEntry::Histogram(h) => hist_lines(prefix, name, h.facets@, ts),
    }
}

/// All lines of one report cycle, in registry order.
pub open spec fn registry_lines(
    prefix: Seq<u8>,
    reg: Seq<(Vec<u8>, MetricEntry)>,
    ts: nat,
) -> Seq<Seq<u8>>
    decreases reg.len(),
{
    if reg.len() == 0 {
        Seq::empty()
    } else {
        registry_lines(prefix, reg.drop_last(), ts) + entry_lines(
            prefix,
            reg.last().0@,
            reg.last().1,
            ts,
        )
    }
}

/// The byte views of a vector of byte vectors.
pub open spec fn views_of(s: Seq<Vec<u8>>) -> Seq<Seq<u8>> {
    s.map_values(|v: Vec<u8>| v@)
}

/// The concatenation of a sequence of byte strings.
pub open spec fn concat_all(s: Seq<Seq<u8>>) -> Seq<u8>
    decreases s.len(),
{
    if s.len() == 0 {
        Seq::empty()
    } else {
        concat_all(s.drop_last()) + s.last()
    }
}

/// Whether some entry of `reg` is registered under the name `nm`.
pub open spec fn has_name(reg: Seq<(Vec<u8>, MetricEntry)>, nm: Seq<u8>) -> bool {
    exists|i: int| 0 <= i < reg.len() && reg[i].0@ == nm
}

/// Byte-string equality.
fn bytes_eq(a: &[u8], b: &[u8]) -> (r: bool)
    ensures
        r <==> a@ == b@,
{
    if a.len() != b.len() {
        return false;
    }
    let n = a.len();
    let mut i: usize = 0;
    while i < n
        invariant
            n == a@.len() == b@.len(),
            i <= n,
            forall|k: int| 0 <= k < i ==> a@[k] == b@[k],
        decreases n - i,
    {
        if a[i] != b[i] {
            return false;
        }
        i = i + 1;
    }
    proof {
        assert(a@ =~= b@);
    }
    true
}

/// The reporter: a namespace prefix, a target address, a byte cap per
/// send buffer, and the name-keyed registry it owns. Producers keep
/// shared handles to the metrics outside this core; the registry alone
/// decides what a cycle serializes.
pub struct Reporter {
    pub app_name: String,
    pub address: String,
    pub prefix: Vec<u8>,
    pub max_batch_bytes: usize,
    pub registry: Vec<(Vec<u8>, MetricEntry)>,
}

impl Reporter {
    /// Names are unique within a reporter.
    pub open spec fn wf(self) -> bool {
        forall|i: int, j: int|
            0 <= i < j < self.registry@.len() ==> self.registry@[i].0@ != self.registry@[j].0@
    }

    /// A reporter bound to a target address and a namespace prefix. No
    /// connection is opened until first use.
    pub fn new(
        app_name: &str,
        address: &str,
        metric_prefix: &str,
        max_batch_bytes: usize,
    ) -> (r: Reporter)
        ensures
            r.wf(),
            r.app_name@ == app_name@,
            r.address@ == address@,
            r.prefix@ == metric_prefix.spec_bytes(),
            r.max_batch_bytes == max_batch_bytes,
            r.registry@.len() == 0,
    {
        Reporter {
            app_name: app_name.to_owned(),
            address: address.to_owned(),
            prefix: slice_to_vec(metric_prefix.as_bytes()),
            max_batch_bytes,
            registry: Vec::new(),
        }
    }

    /// Register `metric` under `name`. Fails if and only if the name is
    /// already taken, and then leaves the prior registration untouched.
    pub fn add(&mut self, name: &str, metric: MetricEntry) -> (r: Result<(), DuplicateNameError>)
        requires
            old(self).wf(),
        ensures
            final(self).wf(),
            final(self).app_name == old(self).app_name,
            final(self).address == old(self).address,
            final(self).prefix == old(self).prefix,
            final(self).max_batch_bytes == old(self).max_batch_bytes,
            r is Err <==> has_name(old(self).registry@, name.spec_bytes()),
            r is Err ==> final(self).registry == old(self).registry,
            r is Ok ==> {
                &&& final(self).registry@.len() == old(self).registry@.len() + 1
                &&& final(self).registry@.take(old(self).registry@.len() as int) == old(
                    self,
                ).registry@
                &&& final(self).registry@.last().0@ == name.spec_bytes()
                &&& final(self).registry@.last().1 == metric
            },
    {
        let key = name.as_bytes();
        let n = self.registry.len();
        let mut i: usize = 0;
        while i < n
            invariant
                *self == *old(self),
                self.wf(),
                key@ == name.spec_bytes(),
                n == self.registry@.len(),
                i <= n,
                forall|k: int| 0 <= k < i ==> self.registry@[k].0@ != key@,
            decreases n - i,
        {
            if bytes_eq(self.registry[i].0.as_slice(), key) {
                assert(has_name(self.registry@, key@));
                return Err(DuplicateNameError);
            }
            i = i + 1;
        }
        assert(!has_name(self.registry@, key@));
        self.registry.push((slice_to_vec(key), metric));
        assert(self.registry@.take(old(self).registry@.len() as int) =~= old(self).registry@);
        Ok(())
    }

    /// Walk the registry and encode every metric's facets, one protocol
    /// line per facet, in registry order, all stamped with `timestamp`.
    pub fn render_lines(&self, timestamp: u64) -> (lines: Vec<Vec<u8>>)
        ensures
            views_of(lines@) == registry_lines(self.prefix@, self.registry@, timestamp as nat),
    {
        let mut lines: Vec<Vec<u8>> = Vec::new();
        let n = self.registry.len();
        let mut i: usize = 0;
        while i < n
            invariant
                n == self.registry@.len(),
                i <= n,
                views_of(lines@) == registry_lines(
                    self.prefix@,
                    self.registry@.take(i as int),
                    timestamp as nat,
                ),
            decreases n - i,
        {
            render_entry(
                self.prefix.as_slice(),
                self.registry[i].0.as_slice(),
                &self.registry[i].1,
                timestamp,
                &mut lines,
            );
            proof {
                assert(self.registry@.take(i as int + 1).drop_last() =~= self.registry@.take(
                    i as int,
                ));
                assert(self.registry@.take(i as int + 1).last() == self.registry@[i as int]);
            }
            i = i + 1;
        }
        assert(self.registry@.take(n as int) =~= self.registry@);
        lines
    }
}

proof fn lemma_concat_push(s: Seq<Seq<u8>>, x: Seq<u8>)
    ensures
        concat_all(s.push(x)) == concat_all(s) + x,
{
    assert(s.push(x).drop_last() =~= s);
}

proof fn lemma_views_push(s: Seq<Vec<u8>>, v: Vec<u8>)
    ensures
        views_of(s.push(v)) == views_of(s).push(v@),
{
    assert(views_of(s.push(v)) =~= views_of(s).push(v@));
}

/// The facet name bytes of a meter's cumulative count, `count`.
fn facet_count_vec() -> (v: Vec<u8>)
    ensures
        v@ == facet_count(),
{
    let mut v: Vec<u8> = Vec::new();
    v.push(99);
    v.push(111);
    v.push(117);
    v.push(110);
    v.push(116);
    assert(v@ =~= facet_count());
    v
}

/// The facet name bytes of a meter's one-minute rate, `rate1`.
fn facet_rate1_vec() -> (v: Vec<u8>)
    ensures
        v@ == facet_rate1(),
{
    let mut v: Vec<u8> = Vec::new();
    v.push(114);
    v.push(97);
    v.push(116);
    v.push(101);
    v.push(49);
    assert(v@ =~= facet_rate1());
    v
}

/// The facet name bytes of a meter's five-minute rate, `rate5`.
fn facet_rate5_vec() -> (v: Vec<u8>)
    ensures
        v@ == facet_rate5(),
{
    let mut v: Vec<u8> = Vec::new();
    v.push(114);
    v.push(97);
    v.push(116);
    v.push(101);
    v.push(53);
    assert(v@ =~= facet_rate5());
    v
}

/// The facet name bytes of a meter's fifteen-minute rate, `rate15`.
fn facet_rate15_vec() -> (v: Vec<u8>)
    ensures
        v@ == facet_rate15(),
{
    let mut v: Vec<u8> = Vec::new();
    v.push(114);
    v.push(97);
    v.push(116);
    v.push(101);
    v.push(49);
    v.push(53);
    assert(v@ =~= facet_rate15());
    v
}

/// The facet name bytes of a meter's mean rate, `mean`.
fn facet_mean_vec() -> (v: Vec<u8>)
    ensures
        v@ == facet_mean(),
{
    let mut v: Vec<u8> = Vec::new();
    v.push(109);
    v.push(101);
    v.push(97);
    v.push(110);
    assert(v@ =~= facet_mean());
    v
}

/// Append the protocol lines of one registry entry to `lines`.
fn render_entry(prefix: &[u8], name: &[u8], m: &MetricEntry, timestamp: u64, lines: &mut Vec<Vec<u8>>)
    ensures
        views_of(final(lines)@) == views_of(old(lines)@) + entry_lines(
            prefix@,
            name@,
            *m,
            timestamp as nat,
        ),
{
    match m {
        MetricEntry::Counter(c) => {
            let no_facet: Vec<u8> = Vec::new();
            let l = encode_line_bytes(prefix, name, no_facet.as_slice(), c.value, timestamp);
            lines.push(l);
            proof {
                lemma_views_push(old(lines)@, l);
                assert(views_of(lines@) =~= views_of(old(lines)@) + entry_lines(
                    prefix@,
                    name@,
                    *m,
                    timestamp as nat,
                ));
            }
        },
        MetricEntry::Gauge(g) => {
            let no_facet: Vec<u8> = Vec::new();
            let l = encode_line_bytes(prefix, name, no_facet.as_slice(), g.value, timestamp);
            lines.push(l);
            proof {
                lemma_views_push(old(lines)@, l);
                assert(views_of(lines@) =~= views_of(old(lines)@) + entry_lines(
                    prefix@,
                    name@,
                    *m,
                    timestamp as nat,
                ));
            }
        },
        MetricEntry::Meter(mt) => {
            let f_count = facet_count_vec();
            let f_r1 = facet_rate1_vec();
            let f_r5 = facet_rate5_vec();
            let f_r15 = facet_rate15_vec();
            let f_mean = facet_mean_vec();
            let l1 = encode_line_bytes(prefix, name, f_count.as_slice(), mt.data.count, timestamp);
            let l2 = encode_line_scaled_bytes(
                prefix,
                name,
                f_r1.as_slice(),
                mt.data.rates[0],
                timestamp,
            );
            let l3 = encode_line_scaled_bytes(
                prefix,
                name,
                f_r5.as_slice(),
                mt.data.rates[1],
                timestamp,
            );
            let l4 = encode_line_scaled_bytes(
                prefix,
                name,
                f_r15.as_slice(),
                mt.data.rates[2],
                timestamp,
            );
            let l5 = encode_line_scaled_bytes(
                prefix,
                name,
                f_mean.as_slice(),
                mt.data.mean,
                timestamp,
            );
            lines.push(l1);
            lines.push(l2);
            lines.push(l3);
            lines.push(l4);
            lines.push(l5);
            proof {
                assert(views_of(lines@) =~= views_of(old(lines)@) + meter_lines(
                    prefix@,
                    name@,
                    mt.data,
                    timestamp as nat,
                ));
            }
        },
        MetricEntry::Histogram(h) => {
            let n = h.facets.len();
            let mut j: usize = 0;
            while j < n
                invariant
                    n == h.facets@.len(),
                    j <= n,
                    views_of(lines@) == views_of(old(lines)@) + hist_lines(
                        prefix@,
                        name@,
                        h.facets@.take(j as int),
                        timestamp as nat,
                    ),
                decreases n - j,
            {
                let l = encode_line_bytes(
                    prefix,
                    name,
                    h.facets[j].0.as_slice(),
                    h.facets[j].1,
                    timestamp,
                );
                lines.push(l);
                proof {
                    assert(h.facets@.take(j as int + 1).drop_last() =~= h.facets@.take(j as int));
                    assert(h.facets@.take(j as int + 1).last() == h.facets@[j as int]);
                    assert(views_of(lines@) =~= (views_of(old(lines)@) + hist_lines(
                        prefix@,
                        name@,
                        h.facets@.take(j as int),
                        timestamp as nat,
                    )).push(lines@.last()@));
                    assert(views_of(lines@) =~= views_of(old(lines)@) + hist_lines(
                        prefix@,
                        name@,
                        h.facets@.take(j as int + 1),
                        timestamp as nat,
                    ));
                }
                j = j + 1;
            }
            assert(h.facets@.take(n as int) =~= h.facets@);
        },
    }
}

/// One step of the greedy packing: a line joins the open buffer unless the
/// buffer is nonempty and the line would push it past `max`; then the
/// buffer is sealed as a batch and the line opens the next one.
pub open spec fn greedy_step(
    acc: (Seq<Seq<u8>>, Seq<u8>),
    line: Seq<u8>,
    max: int,
) -> (Seq<Seq<u8>>, Seq<u8>) {
    if acc.1.len() > 0 && acc.1.len() + line.len() > max {
        (acc.0.push(acc.1), line)
    } else {
        (acc.0, acc.1 + line)
    }
}

/// The greedy packing fold over the lines, left to right: the sealed
/// batches so far, and the still-open buffer.
pub open spec fn greedy_fold(lines: Seq<Seq<u8>>, max: int) -> (Seq<Seq<u8>>, Seq<u8>)
    decreases lines.len(),
{
    if lines.len() == 0 {
        (Seq::empty(), Seq::empty())
    } else {
        greedy_step(greedy_fold(lines.drop_last(), max), lines.last(), max)
    }
}

/// The batches the greedy packing produces: the fold's sealed batches,
/// plus the open buffer if anything is left in it.
pub open spec fn greedy_batches(lines: Seq<Seq<u8>>, max: int) -> Seq<Seq<u8>> {
    let acc = greedy_fold(lines, max);
    if acc.1.len() > 0 {
        acc.0.push(acc.1)
    } else {
        acc.0
    }
}

/// Pack whole lines into send buffers of at most `max` bytes, flushing a
/// buffer whenever the next line would overflow it. A single line longer
/// than `max` becomes a buffer of its own. The result is exactly the
/// greedy packing; in particular the buffers concatenate to exactly the
/// lines, in order, and none is empty.
pub fn into_batches(lines: &Vec<Vec<u8>>, max: usize) -> (batches: Vec<Vec<u8>>)
    ensures
        views_of(batches@) == greedy_batches(views_of(lines@), max as int),
        concat_all(views_of(batches@)) == concat_all(views_of(lines@)),
        forall|b: int| 0 <= b < batches@.len() ==> #[trigger] batches@[b]@.len() > 0,
        forall|b: int|
            0 <= b < batches@.len() ==> #[trigger] batches@[b]@.len() <= max || (exists|j: int|
                0 <= j < lines@.len() && batches@[b]@ == lines@[j]@),
{
    let mut batches: Vec<Vec<u8>> = Vec::new();
    let mut buf: Vec<u8> = Vec::new();
    let n = lines.len();
    let mut i: usize = 0;
    while i < n
        invariant
            n == lines@.len(),
            i <= n,
            views_of(batches@) == greedy_fold(views_of(lines@).take(i as int), max as int).0,
            buf@ == greedy_fold(views_of(lines@).take(i as int), max as int).1,
            concat_all(views_of(batches@)) + buf@ == concat_all(views_of(lines@.take(i as int))),
            buf@.len() <= max || (exists|j: int| 0 <= j < i && buf@ == lines@[j]@),
            forall|b: int| 0 <= b < batches@.len() ==> #[trigger] batches@[b]@.len() > 0,
            forall|b: int|
                0 <= b < batches@.len() ==> #[trigger] batches@[b]@.len() <= max || (exists|j: int|
                    0 <= j < i && batches@[b]@ == lines@[j]@),
        decreases n - i,
    {
        let line = &lines[i];
        proof {
            assert(views_of(lines@).take(i as int + 1).drop_last() =~= views_of(lines@).take(
                i as int,
            ));
            assert(views_of(lines@).take(i as int + 1).last() == lines@[i as int]@);
        }
        if buf.len() > 0 && (buf.len() > max || line.len() > max - buf.len()) {
            proof {
                assert(buf@.len() + lines@[i as int]@.len() > max);
                lemma_views_push(batches@, buf);
                lemma_concat_push(views_of(batches@), buf@);
            }
            batches.push(buf);
            buf = Vec::new();
        } else {
            proof {
                assert(!(buf@.len() > 0 && buf@.len() + lines@[i as int]@.len() > max));
            }
        }
        let ghost buf_before = buf@;
        push_bytes(&mut buf, line.as_slice());
        proof {
            assert(views_of(lines@.take(i as int + 1)).drop_last() =~= views_of(lines@.take(
                i as int,
            )));
            lemma_concat_push(views_of(lines@.take(i as int)), lines@[i as int]@);
            assert(views_of(lines@.take(i as int + 1)) =~= views_of(lines@.take(i as int)).push(
                lines@[i as int]@,
            ));
            assert(concat_all(views_of(batches@)) + buf@ =~= concat_all(views_of(lines@.take(
                i as int + 1,
            ))));
            if buf_before.len() == 0 {
                assert(buf@ =~= lines@[i as int]@);
            }
        }
        i = i + 1;
    }
    proof {
        assert(lines@.take(n as int) =~= lines@);
        assert(views_of(lines@).take(n as int) =~= views_of(lines@));
    }
    if buf.len() > 0 {
        proof {
            lemma_views_push(batches@, buf);
            lemma_concat_push(views_of(batches@), buf@);
        }
        batches.push(buf);
    }
    batches
}

} // verus!
