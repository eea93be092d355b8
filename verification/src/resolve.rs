//! The network-resolution phase of a tick: buffered mass moves from output
//! endpoints to input endpoints exactly where a connection authorizes it,
//! and every pair visited is reported through a diagnostic event.
//!
//! The walk is the full cross product of inputs and outputs: for every
//! consumer, in order, every producer is visited once. A producer connected
//! to several consumers is therefore drained once per consumer, and a
//! consumer fed by several producers applies its rate cap to each producer
//! separately, not to their sum.

use vstd::prelude::*;
use vstd::arithmetic::div_mod::lemma_div_is_ordered;
use vstd::arithmetic::div_mod::lemma_div_multiples_vanish;
use vstd::arithmetic::div_mod::lemma_div_pos_is_pos;
use vstd::arithmetic::mul::lemma_mul_inequality;
use vstd::arithmetic::mul::lemma_mul_nonnegative;
use vstd::arithmetic::mul::lemma_mul_upper_bound;
use crate::model::Connection;
use crate::model::Consumer;
use crate::model::Diagnostic;
use crate::model::Producer;
use crate::model::ResourceOutput;
use crate::model::consumer_wf;
use crate::model::consumers_wf;
use crate::AMOUNT_LIMIT;
use crate::DT_LIMIT;
use crate::SCALE;
use crate::min_int;
use crate::min_u64;

verus! {

/// Whether some connection authorizes flow from the node named `source`
/// to the node named `target`.
pub open spec fn spec_is_connected(conns: Seq<Connection>, source: u64, target: u64) -> bool {
    exists|k: int| 0 <= k < conns.len() && conns[k].source == source && conns[k].target == target
}

/// Mass one resolution step delivers across one connected pair: the
/// smaller of the output's buffered mass and the input's flow rate, times
/// the tick duration.
pub open spec fn delivery(available: int, rate: int, dt: int) -> int {
    (min_int(available, rate) * dt) / (SCALE as int)
}

/// The output buffer after one resolution step across one connected pair:
/// the delivered mass leaves it, floored at zero.
pub open spec fn drained(available: int, rate: int, dt: int) -> int {
    available - min_int(delivery(available, rate, dt), available)
}

/// One producer after one consumer's visit: drained if a connection links
/// the two nodes, untouched otherwise.
pub open spec fn step_producer(p: Producer, c: Consumer, conns: Seq<Connection>, dt: int) -> Producer {
    if spec_is_connected(conns, p.entity, c.entity) {
        Producer {
            entity: p.entity,
            tank: p.tank,
            output: ResourceOutput {
                max_flow_rate: p.output.max_flow_rate,
                currently_available: drained(
                    p.output.currently_available as int,
                    c.input.max_flow_rate as int,
                    dt,
                ) as u64,
            },
        }
    } else {
        p
    }
}

/// What one (consumer, producer) visit reports: the pair's missing
/// connection, or the delivered mass when any moved, or nothing.
pub open spec fn step_diags(p: Producer, c: Consumer, conns: Seq<Connection>, dt: int) -> Seq<
    Diagnostic,
> {
    if !spec_is_connected(conns, p.entity, c.entity) {
        seq![Diagnostic::UnconnectedInput { input_entity: c.entity, output_entity: p.entity }]
    } else {
        let amount = delivery(p.output.currently_available as int, c.input.max_flow_rate as int, dt);
        if amount > 0 {
            seq![Diagnostic::Delivered { amount: amount as u64, from: p.entity, to: c.entity }]
        } else {
            Seq::<Diagnostic>::empty()
        }
    }
}

/// All producers after one consumer's pass over them; each producer is
/// visited exactly once, independently of the others.
pub open spec fn resolved_producers_for(
    ps: Seq<Producer>,
    c: Consumer,
    conns: Seq<Connection>,
    dt: int,
) -> Seq<Producer> {
    ps.map_values(|p: Producer| step_producer(p, c, conns, dt))
}

/// The reports of one consumer's pass over the producers, in visiting
/// order.
pub open spec fn diags_for(ps: Seq<Producer>, c: Consumer, conns: Seq<Connection>, dt: int) -> Seq<
    Diagnostic,
>
    decreases ps.len(),
{
    if ps.len() == 0 {
        Seq::<Diagnostic>::empty()
    } else {
        diags_for(ps.drop_last(), c, conns, dt) + step_diags(ps.last(), c, conns, dt)
    }
}

/// All producers after the whole resolution phase: the consumers take
/// their passes in order, each over the state the previous pass left.
pub open spec fn resolved_producers(
    ps: Seq<Producer>,
    cs: Seq<Consumer>,
    conns: Seq<Connection>,
    dt: int,
) -> Seq<Producer>
    decreases cs.len(),
{
    if cs.len() == 0 {
        ps
    } else {
        resolved_producers_for(
            resolved_producers(ps, cs.drop_last(), conns, dt),
            cs.last(),
            conns,
            dt,
        )
    }
}

/// The reports of the whole resolution phase, in emission order.
pub open spec fn resolution_diags(
    ps: Seq<Producer>,
    cs: Seq<Consumer>,
    conns: Seq<Connection>,
    dt: int,
) -> Seq<Diagnostic>
    decreases cs.len(),
{
    if cs.len() == 0 {
        Seq::<Diagnostic>::empty()
    } else {
        resolution_diags(ps, cs.drop_last(), conns, dt) + diags_for(
            resolved_producers(ps, cs.drop_last(), conns, dt),
            cs.last(),
            conns,
            dt,
        )
    }
}

/// Whether some connection authorizes flow from `source` to `target`.
pub fn is_connected(conns: &Vec<Connection>, source: u64, target: u64) -> (r: bool)
    ensures
        r == spec_is_connected(conns@, source, target),
{
    let mut i: usize = 0;
    while i < conns.len()
        invariant
            0 <= i <= conns@.len(),
            forall|k: int|
                0 <= k < i ==> !(conns@[k].source == source && conns@[k].target == target),
        decreases conns@.len() - i,
    {
        if conns[i].source == source && conns[i].target == target {
            return true;
        }
        i = i + 1;
    }
    false
}

/// One consumer's pass: visit every producer once, deliver across every
/// connected pair, and append one report per visited pair that is either
/// unconnected or actually delivered.
pub fn resolve_input(
    producers: &mut Vec<Producer>,
    consumer: &Consumer,
    connections: &Vec<Connection>,
    dt: u64,
    diags: &mut Vec<Diagnostic>,
)
    requires
        consumer_wf(*consumer),
        dt <= DT_LIMIT,
    ensures
        final(producers)@ == resolved_producers_for(old(producers)@, *consumer, connections@, dt as int),
        final(diags)@ == old(diags)@ + diags_for(old(producers)@, *consumer, connections@, dt as int),
{
    let ghost original = producers@;
    let ghost diags0 = diags@;
    let n = producers.len();
    let mut i: usize = 0;
    while i < n
        invariant
            0 <= i <= n,
            n == producers@.len(),
            producers@.len() == original.len(),
            consumer_wf(*consumer),
            dt <= DT_LIMIT,
            forall|j: int|
                0 <= j < i ==> producers@[j] == step_producer(
                    #[trigger] original[j],
                    *consumer,
                    connections@,
                    dt as int,
                ),
            forall|j: int| i <= j < n ==> producers@[j] == original[j],
            diags@ == diags0 + diags_for(original.take(i as int), *consumer, connections@, dt as int),
        decreases n - i,
    {
        let output_entity = producers[i].entity;
        let connected = is_connected(connections, output_entity, consumer.entity);
        if !connected {
            diags.push(
                Diagnostic::UnconnectedInput {
                    input_entity: consumer.entity,
                    output_entity,
                },
            );
        } else {
            let available = producers[i].output.currently_available;
            let rate = consumer.input.max_flow_rate;
            let limited = min_u64(available, rate);
            proof {
                lemma_mul_upper_bound(limited as int, AMOUNT_LIMIT as int, dt as int, DT_LIMIT as int);
            }
            let amount = (limited * dt) / SCALE;
            let node = &mut producers[i];
            if amount >= node.output.currently_available {
                node.output.currently_available = 0;
            } else {
                node.output.currently_available = node.output.currently_available - amount;
            }
            if amount > 0 {
                diags.push(
                    Diagnostic::Delivered { amount, from: output_entity, to: consumer.entity },
                );
            }
        }
        proof {
            let c = *consumer;
            let pre = original.take(i as int);
            let cur = original.take(i + 1);
            assert(cur.drop_last() =~= pre);
            assert(cur.last() == original[i as int]);
            let chunk = step_diags(original[i as int], c, connections@, dt as int);
            assert(diags_for(cur, c, connections@, dt as int) == diags_for(
                pre,
                c,
                connections@,
                dt as int,
            ) + chunk);
            assert(diags@ =~= diags0 + diags_for(cur, c, connections@, dt as int));
        }
        i = i + 1;
    }
    proof {
        assert(original.take(n as int) =~= original);
        assert(final(producers)@ =~= resolved_producers_for(
            original,
            *consumer,
            connections@,
            dt as int,
        ));
    }
}

/// The whole resolution phase: every consumer takes one pass over every
/// producer, in order, and the reports of all passes come back in
/// emission order.
pub fn solve_network(
    producers: &mut Vec<Producer>,
    consumers: &Vec<Consumer>,
    connections: &Vec<Connection>,
    dt: u64,
) -> (diags: Vec<Diagnostic>)
    requires
        consumers_wf(consumers@),
        dt <= DT_LIMIT,
    ensures
        final(producers)@ == resolved_producers(old(producers)@, consumers@, connections@, dt as int),
        diags@ == resolution_diags(old(producers)@, consumers@, connections@, dt as int),
{
    let ghost original = producers@;
    let mut diags: Vec<Diagnostic> = Vec::new();
    let n = consumers.len();
    let mut i: usize = 0;
    while i < n
        invariant
            0 <= i <= n,
            n == consumers@.len(),
            consumers_wf(consumers@),
            dt <= DT_LIMIT,
            producers@ == resolved_producers(original, consumers@.take(i as int), connections@, dt as int),
            diags@ == resolution_diags(original, consumers@.take(i as int), connections@, dt as int),
        decreases n - i,
    {
        proof {
            assert(consumer_wf(consumers@[i as int]));
        }
        resolve_input(producers, &consumers[i], connections, dt, &mut diags);
        proof {
            let pre = consumers@.take(i as int);
            let cur = consumers@.take(i + 1);
            assert(cur.drop_last() =~= pre);
            assert(cur.last() == consumers@[i as int]);
        }
        i = i + 1;
    }
    proof {
        assert(consumers@.take(n as int) =~= consumers@);
    }
    diags
}

/// Conservation bound: across one connected pair the delivered mass never
/// exceeds what the input's rate allows over the tick, the drained buffer
/// stays between zero and its previous value, and whenever the tick lasts
/// at most one second the delivered mass also never exceeds what the
/// buffer held, so the subtraction is exact.
pub proof fn lemma_delivery_conservation(available: int, rate: int, dt: int)
    requires
        0 <= available,
        0 <= rate <= AMOUNT_LIMIT,
        0 <= dt <= DT_LIMIT,
    ensures
        0 <= delivery(available, rate, dt),
        delivery(available, rate, dt) <= (rate * dt) / (SCALE as int),
        0 <= drained(available, rate, dt) <= available,
        dt <= SCALE ==> delivery(available, rate, dt) <= available,
        dt <= SCALE ==> drained(available, rate, dt) == available - delivery(available, rate, dt),
{
    let limited = min_int(available, rate);
    lemma_mul_nonnegative(limited, dt);
    lemma_div_pos_is_pos(limited * dt, SCALE as int);
    lemma_mul_inequality(limited, rate, dt);
    lemma_div_is_ordered(limited * dt, rate * dt, SCALE as int);
    if dt <= SCALE {
        lemma_mul_inequality(dt, SCALE as int, limited);
        lemma_div_is_ordered(limited * dt, limited * (SCALE as int), SCALE as int);
        lemma_div_multiples_vanish(limited, SCALE as int);
        assert(limited * (SCALE as int) == (SCALE as int) * limited);
    }
}

/// A zero-length tick delivers nothing and leaves a buffer as it was.
pub proof fn lemma_zero_delivery(available: int, rate: int)
    requires
        0 <= available,
        0 <= rate,
    ensures
        delivery(available, rate, 0) == 0,
        drained(available, rate, 0) == available,
{
    assert(min_int(available, rate) * 0 == 0);
}

/// One consumer's visit with a zero-length tick leaves a producer as it
/// was.
pub proof fn lemma_step_zero_flow(p: Producer, c: Consumer, conns: Seq<Connection>)
    ensures
        step_producer(p, c, conns, 0) == p,
{
    lemma_zero_delivery(p.output.currently_available as int, c.input.max_flow_rate as int);
}

/// Idempotence of zero flow in resolution: a zero-length tick changes no
/// producer, however the network is connected.
pub proof fn lemma_resolution_zero_flow(ps: Seq<Producer>, cs: Seq<Consumer>, conns: Seq<Connection>)
    ensures
        resolved_producers(ps, cs, conns, 0) == ps,
    decreases cs.len(),
{
    if cs.len() > 0 {
        lemma_resolution_zero_flow(ps, cs.drop_last(), conns);
        assert forall|j: int| 0 <= j < ps.len() implies resolved_producers_for(
            ps,
            cs.last(),
            conns,
            0,
        )[j] == ps[j] by {
            lemma_step_zero_flow(ps[j], cs.last(), conns);
        }
        assert(resolved_producers_for(ps, cs.last(), conns, 0) =~= ps);
    }
}

/// One consumer's pass keeps every producer's identity, tank and rate cap,
/// and never grows any output buffer.
pub proof fn lemma_pass_preserves(ps: Seq<Producer>, c: Consumer, conns: Seq<Connection>, dt: int)
    requires
        0 <= dt,
    ensures
        resolved_producers_for(ps, c, conns, dt).len() == ps.len(),
        forall|j: int|
            0 <= j < ps.len() ==> {
                let q = #[trigger] resolved_producers_for(ps, c, conns, dt)[j];
                q.entity == ps[j].entity && q.tank == ps[j].tank && q.output.max_flow_rate
                    == ps[j].output.max_flow_rate && q.output.currently_available
                    <= ps[j].output.currently_available
            },
{
    assert forall|j: int| 0 <= j < ps.len() implies {
        let q = #[trigger] resolved_producers_for(ps, c, conns, dt)[j];
        q.entity == ps[j].entity && q.tank == ps[j].tank && q.output.max_flow_rate
            == ps[j].output.max_flow_rate && q.output.currently_available
            <= ps[j].output.currently_available
    } by {
        let available = ps[j].output.currently_available as int;
        let rate = c.input.max_flow_rate as int;
        lemma_mul_nonnegative(min_int(available, rate), dt);
        lemma_div_pos_is_pos(min_int(available, rate) * dt, SCALE as int);
    }
}

/// The whole resolution phase keeps every producer's identity, tank and
/// rate cap, and never grows any output buffer.
pub proof fn lemma_resolution_preserves(
    ps: Seq<Producer>,
    cs: Seq<Consumer>,
    conns: Seq<Connection>,
    dt: int,
)
    requires
        0 <= dt,
    ensures
        resolved_producers(ps, cs, conns, dt).len() == ps.len(),
        forall|j: int|
            0 <= j < ps.len() ==> {
                let q = #[trigger] resolved_producers(ps, cs, conns, dt)[j];
                q.entity == ps[j].entity && q.tank == ps[j].tank && q.output.max_flow_rate
                    == ps[j].output.max_flow_rate && q.output.currently_available
                    <= ps[j].output.currently_available
            },
    decreases cs.len(),
{
    if cs.len() > 0 {
        lemma_resolution_preserves(ps, cs.drop_last(), conns, dt);
        lemma_pass_preserves(resolved_producers(ps, cs.drop_last(), conns, dt), cs.last(), conns, dt);
    }
}

/// One consumer's pass over producers with no connection to producer `j`
/// leaves that producer untouched and reports the pair as unconnected.
pub proof fn lemma_pass_reports_unconnected(
    ps: Seq<Producer>,
    c: Consumer,
    conns: Seq<Connection>,
    dt: int,
    j: int,
)
    requires
        0 <= j < ps.len(),
        !spec_is_connected(conns, ps[j].entity, c.entity),
    ensures
        resolved_producers_for(ps, c, conns, dt)[j] == ps[j],
        diags_for(ps, c, conns, dt).contains(
            Diagnostic::UnconnectedInput { input_entity: c.entity, output_entity: ps[j].entity },
        ),
    decreases ps.len(),
{
    let d = Diagnostic::UnconnectedInput { input_entity: c.entity, output_entity: ps[j].entity };
    if j == ps.len() - 1 {
        let whole = diags_for(ps, c, conns, dt);
        let chunk = step_diags(ps.last(), c, conns, dt);
        assert(chunk[0] == d);
        assert(whole[whole.len() - 1] == d);
    } else {
        lemma_pass_reports_unconnected(ps.drop_last(), c, conns, dt, j);
        let prefix = diags_for(ps.drop_last(), c, conns, dt);
        let k = choose|k: int| 0 <= k < prefix.len() && prefix[k] == d;
        assert(diags_for(ps, c, conns, dt)[k] == d);
    }
}

/// Every report of consumer `i`'s pass appears among the reports of the
/// whole resolution phase.
pub proof fn lemma_resolution_contains_pass_diag(
    ps: Seq<Producer>,
    cs: Seq<Consumer>,
    conns: Seq<Connection>,
    dt: int,
    i: int,
    d: Diagnostic,
)
    requires
        0 <= i < cs.len(),
        diags_for(resolved_producers(ps, cs.take(i), conns, dt), cs[i], conns, dt).contains(d),
    ensures
        resolution_diags(ps, cs, conns, dt).contains(d),
    decreases cs.len(),
{
    let prefix = resolution_diags(ps, cs.drop_last(), conns, dt);
    if i == cs.len() - 1 {
        assert(cs.take(i) =~= cs.drop_last());
        let chunk = diags_for(resolved_producers(ps, cs.drop_last(), conns, dt), cs.last(), conns, dt);
        let k = choose|k: int| 0 <= k < chunk.len() && chunk[k] == d;
        assert(resolution_diags(ps, cs, conns, dt)[prefix.len() + k] == d);
    } else {
        assert(cs.drop_last().take(i) =~= cs.take(i));
        assert(cs.drop_last()[i] == cs[i]);
        lemma_resolution_contains_pass_diag(ps, cs.drop_last(), conns, dt, i, d);
        let k = choose|k: int| 0 <= k < prefix.len() && prefix[k] == d;
        assert(resolution_diags(ps, cs, conns, dt)[k] == d);
    }
}

/// No phantom transfer: where no connection links producer `j` to consumer
/// `i`, consumer `i`'s pass moves nothing out of producer `j` — the
/// producer's state after that pass is exactly its state before it — and
/// the resolution phase reports the pair as unconnected.
pub proof fn lemma_no_phantom_transfer(
    ps: Seq<Producer>,
    cs: Seq<Consumer>,
    conns: Seq<Connection>,
    dt: int,
    i: int,
    j: int,
)
    requires
        0 <= dt,
        0 <= i < cs.len(),
        0 <= j < ps.len(),
        !spec_is_connected(conns, ps[j].entity, cs[i].entity),
    ensures
        resolved_producers(ps, cs.take(i + 1), conns, dt)[j] == resolved_producers(
            ps,
            cs.take(i),
            conns,
            dt,
        )[j],
        resolution_diags(ps, cs, conns, dt).contains(
            Diagnostic::UnconnectedInput { input_entity: cs[i].entity, output_entity: ps[j].entity },
        ),
{
    let mid = resolved_producers(ps, cs.take(i), conns, dt);
    lemma_resolution_preserves(ps, cs.take(i), conns, dt);
    assert(mid[j].entity == ps[j].entity);
    assert(cs.take(i + 1).drop_last() =~= cs.take(i));
    assert(cs.take(i + 1).last() == cs[i]);
    lemma_pass_reports_unconnected(mid, cs[i], conns, dt, j);
    lemma_resolution_contains_pass_diag(
        ps,
        cs,
        conns,
        dt,
        i,
        Diagnostic::UnconnectedInput { input_entity: cs[i].entity, output_entity: ps[j].entity },
    );
}

} // verus!
