//! The production phase of a tick: every node that owns both a tank and an
//! output endpoint moves mass from storage into the endpoint's buffer,
//! limited by the endpoint's flow rate and by the room the buffer leaves.

use vstd::prelude::*;
use vstd::arithmetic::div_mod::lemma_div_is_ordered;
use vstd::arithmetic::div_mod::lemma_div_multiples_vanish;
use vstd::arithmetic::div_mod::lemma_div_pos_is_pos;
use vstd::arithmetic::mul::lemma_mul_inequality;
use vstd::arithmetic::mul::lemma_mul_nonnegative;
use vstd::arithmetic::mul::lemma_mul_upper_bound;
use crate::model::Producer;
use crate::model::ResourceOutput;
use crate::model::Tank;
use crate::model::producer_wf;
use crate::model::producers_wf;
use crate::AMOUNT_LIMIT;
use crate::DT_LIMIT;
use crate::SCALE;
use crate::min_int;
use crate::min_u64;

verus! {

/// Mass one production step draws from a tank into its output buffer:
/// the smaller of the room the buffer leaves (`capacity - available`) and
/// the endpoint's flow rate, times the tick duration, floored at zero when
/// the tank holds no more than the buffer already exposes.
pub open spec fn production_removed(capacity: int, available: int, rate: int, dt: int) -> int {
    if capacity > available {
        (min_int(capacity - available, rate) * dt) / (SCALE as int)
    } else {
        0
    }
}

/// A producing node after one production step: `removed` mass leaves the
/// tank (its capacity floored at zero) and enters the output buffer;
/// every other field keeps its value.
pub open spec fn provided_producer(p: Producer, dt: int) -> Producer {
    let removed = production_removed(
        p.tank.capacity as int,
        p.output.currently_available as int,
        p.output.max_flow_rate as int,
        dt,
    );
    Producer {
        entity: p.entity,
        tank: Tank {
            contents: p.tank.contents,
            capacity: (p.tank.capacity - min_int(removed, p.tank.capacity as int)) as u64,
            pressure: p.tank.pressure,
            maximum_pressure: p.tank.maximum_pressure,
        },
        output: ResourceOutput {
            max_flow_rate: p.output.max_flow_rate,
            currently_available: (p.output.currently_available + removed) as u64,
        },
    }
}

/// The removed mass is never negative, and never exceeds what the flow
/// rate allows over the tick.
pub proof fn lemma_production_removed_bounds(capacity: int, available: int, rate: int, dt: int)
    requires
        0 <= capacity,
        0 <= available,
        0 <= rate <= AMOUNT_LIMIT,
        0 <= dt <= DT_LIMIT,
    ensures
        0 <= production_removed(capacity, available, rate, dt),
        production_removed(capacity, available, rate, dt) <= (rate * dt) / (SCALE as int),
        production_removed(capacity, available, rate, dt) <= (AMOUNT_LIMIT as int * DT_LIMIT as int)
            / (SCALE as int),
{
    if capacity > available {
        let limited = min_int(capacity - available, rate);
        lemma_mul_nonnegative(limited, dt);
        lemma_div_pos_is_pos(limited * dt, SCALE as int);
        lemma_mul_inequality(limited, rate, dt);
        lemma_div_is_ordered(limited * dt, rate * dt, SCALE as int);
        lemma_mul_upper_bound(rate, AMOUNT_LIMIT as int, dt, DT_LIMIT as int);
        lemma_div_is_ordered(rate * dt, AMOUNT_LIMIT as int * DT_LIMIT as int, SCALE as int);
    } else {
        lemma_mul_nonnegative(rate, dt);
        lemma_div_pos_is_pos(rate * dt, SCALE as int);
    }
}

/// When the tick lasts at most one second, the step removes no more than
/// the room the buffer leaves, so the buffer never outgrows the capacity
/// it was drawn from.
pub proof fn lemma_production_removed_fits(capacity: int, available: int, rate: int, dt: int)
    requires
        0 <= capacity,
        0 <= available,
        0 <= rate,
        0 <= dt <= SCALE,
    ensures
        capacity > available ==> production_removed(capacity, available, rate, dt) <= capacity
            - available,
{
    if capacity > available {
        let room = capacity - available;
        let limited = min_int(room, rate);
        lemma_mul_inequality(dt, SCALE as int, limited);
        lemma_mul_inequality(limited, room, SCALE as int);
        lemma_div_is_ordered(limited * dt, room * (SCALE as int), SCALE as int);
        lemma_div_multiples_vanish(room, SCALE as int);
        assert(room * (SCALE as int) == (SCALE as int) * room);
    }
}

/// One production step on one node. The tank's capacity never grows, the
/// buffer receives exactly what the tank gives up, and a zero-length tick
/// changes nothing.
pub fn provide_node(p: &mut Producer, dt: u64)
    requires
        producer_wf(*old(p)),
        dt <= DT_LIMIT,
    ensures
        *final(p) == provided_producer(*old(p), dt as int),
        final(p).tank.capacity <= old(p).tank.capacity,
        dt == 0 ==> *final(p) == *old(p),
        dt <= SCALE ==> producer_wf(*final(p)),
{
    let capacity = p.tank.capacity;
    let available = p.output.currently_available;
    let rate = p.output.max_flow_rate;
    proof {
        lemma_production_removed_bounds(
            capacity as int,
            available as int,
            rate as int,
            dt as int,
        );
    }
    let removed: u64 = if capacity > available {
        let room = capacity - available;
        let limited = min_u64(room, rate);
        proof {
            lemma_mul_upper_bound(limited as int, AMOUNT_LIMIT as int, dt as int, DT_LIMIT as int);
        }
        (limited * dt) / SCALE
    } else {
        0
    };
    assert(removed == production_removed(capacity as int, available as int, rate as int, dt as int));
    if removed >= p.tank.capacity {
        p.tank.capacity = 0;
    } else {
        p.tank.capacity = p.tank.capacity - removed;
    }
    p.output.currently_available = available + removed;
    proof {
        if dt <= SCALE {
            lemma_production_removed_fits(capacity as int, available as int, rate as int, dt as int);
        }
        if dt == 0 {
            assert((min_int(capacity as int - available as int, rate as int) * 0) == 0);
        }
    }
}

/// The whole production phase: one production step on every producing
/// node, each node independent of the rest.
pub fn provide(producers: &mut Vec<Producer>, dt: u64)
    requires
        producers_wf(old(producers)@),
        dt <= DT_LIMIT,
    ensures
        final(producers)@.len() == old(producers)@.len(),
        forall|i: int|
            0 <= i < old(producers)@.len() ==> final(producers)@[i] == provided_producer(
                old(producers)@[i],
                dt as int,
            ),
        dt == 0 ==> final(producers)@ =~= old(producers)@,
        dt <= SCALE ==> producers_wf(final(producers)@),
{
    let ghost original = producers@;
    let n = producers.len();
    let mut i: usize = 0;
    while i < n
        invariant
            0 <= i <= n,
            n == producers@.len(),
            producers@.len() == original.len(),
            dt <= DT_LIMIT,
            producers_wf(original),
            forall|j: int|
                0 <= j < i ==> producers@[j] == provided_producer(original[j], dt as int),
            forall|j: int| i <= j < n ==> producers@[j] == original[j],
            forall|j: int|
                0 <= j < i && dt <= SCALE ==> producer_wf(#[trigger] producers@[j]),
        decreases n - i,
    {
        proof {
            assert(producers@[i as int] == original[i as int]);
            assert(producer_wf(original[i as int]));
        }
        let node = &mut producers[i];
        provide_node(node, dt);
        i = i + 1;
    }
}

} // verus!
