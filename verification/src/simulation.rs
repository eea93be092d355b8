//! One whole simulation tick, and the built-in demonstration scenario.
//!
//! A tick runs its two phases in strict order: production completes over
//! every node before network resolution begins, and state carries from one
//! tick to the next only through tank capacities and output buffers.

use vstd::prelude::*;
use crate::composition::Mixture;
use crate::composition::Substance;
use crate::model::Connection;
use crate::model::Consumer;
use crate::model::Diagnostic;
use crate::model::Generator;
use crate::model::Network;
use crate::model::Producer;
use crate::model::ResourceInput;
use crate::model::ResourceOutput;
use crate::model::Tank;
use crate::model::network_wf;
use crate::production::provide;
use crate::production::provided_producer;
use crate::resolve::lemma_resolution_preserves;
use crate::resolve::lemma_resolution_zero_flow;
use crate::resolve::resolution_diags;
use crate::resolve::resolved_producers;
use crate::resolve::solve_network;
use crate::DT_LIMIT;
use crate::SCALE;

verus! {

/// The producers after the production phase, before resolution.
pub open spec fn produced(ps: Seq<Producer>, dt: int) -> Seq<Producer> {
    ps.map_values(|p: Producer| provided_producer(p, dt))
}

/// One full tick over the network: production fills every output buffer
/// from its tank, then network resolution drains the buffers into
/// connected consumers. Consumers and connections never change; every
/// tank's capacity is monotonically non-increasing across the tick; and a
/// zero-length tick changes nothing at all.
pub fn tick(net: &mut Network, dt: u64) -> (diags: Vec<Diagnostic>)
    requires
        network_wf(*old(net)),
        dt <= DT_LIMIT,
    ensures
        final(net).consumers@ == old(net).consumers@,
        final(net).connections@ == old(net).connections@,
        final(net).producers@ == resolved_producers(
            produced(old(net).producers@, dt as int),
            old(net).consumers@,
            old(net).connections@,
            dt as int,
        ),
        diags@ == resolution_diags(
            produced(old(net).producers@, dt as int),
            old(net).consumers@,
            old(net).connections@,
            dt as int,
        ),
        final(net).producers@.len() == old(net).producers@.len(),
        forall|j: int|
            0 <= j < old(net).producers@.len() ==> #[trigger] final(net).producers@[j].tank.capacity
                <= old(net).producers@[j].tank.capacity,
        dt == 0 ==> final(net).producers@ == old(net).producers@,
        dt <= SCALE ==> network_wf(*final(net)),
{
    let ghost orig = net.producers@;
    provide(&mut net.producers, dt);
    proof {
        assert(net.producers@ =~= produced(orig, dt as int));
    }
    let ghost mid = net.producers@;
    let diags = solve_network(&mut net.producers, &net.consumers, &net.connections, dt);
    proof {
        lemma_resolution_preserves(mid, net.consumers@, net.connections@, dt as int);
        if dt == 0 {
            lemma_resolution_zero_flow(mid, net.consumers@, net.connections@);
            assert(mid =~= orig);
        }
        if dt <= SCALE {
            assert forall|j: int| 0 <= j < net.producers@.len() implies crate::model::producer_wf(
                #[trigger] net.producers@[j],
            ) by {
                assert(crate::model::producer_wf(mid[j]));
            }
        }
    }
    diags
}

/// The built-in demonstration scenario: one fuel tank exposing a 30%
/// oxygen, 70% hydrogen mixture through an output endpoint, one generator
/// asking for the same mixture through an input endpoint, and one
/// connection from the tank to the generator.
pub fn setup() -> (net: Network)
    ensures
        network_wf(net),
        net.producers@.len() == 1,
        net.consumers@.len() == 1,
        net.connections@.len() == 1,
        net.producers@[0].entity == 0,
        net.producers@[0].tank.capacity == 100 * SCALE,
        net.producers@[0].tank.pressure == SCALE,
        net.producers@[0].tank.maximum_pressure == 4 * SCALE,
        net.producers@[0].tank.contents.contents@ =~= seq![
            (Substance::Oxygen, (30_000) as u64),
            (Substance::Hydrogen, (70_000) as u64),
        ],
        net.producers@[0].output.max_flow_rate == 10 * SCALE,
        net.producers@[0].output.currently_available == 0,
        net.consumers@[0].entity == 1,
        net.consumers@[0].input.max_flow_rate == 5 * SCALE,
        net.consumers@[0].generator.input.contents@ =~= seq![
            (Substance::Oxygen, (30_000) as u64),
            (Substance::Hydrogen, (70_000) as u64),
        ],
        net.connections@[0] == (Connection { source: 0, target: 1 }),
{
    let mut fuel: Vec<(Substance, u64)> = Vec::new();
    fuel.push((Substance::Oxygen, 30_000));
    fuel.push((Substance::Hydrogen, 70_000));
    let mut desired: Vec<(Substance, u64)> = Vec::new();
    desired.push((Substance::Oxygen, 30_000));
    desired.push((Substance::Hydrogen, 70_000));

    let mut producers: Vec<Producer> = Vec::new();
    producers.push(
        Producer {
            entity: 0,
            tank: Tank {
                contents: Mixture { contents: fuel },
                capacity: 100 * SCALE,
                pressure: SCALE,
                maximum_pressure: 4 * SCALE,
            },
            output: ResourceOutput { max_flow_rate: 10 * SCALE, currently_available: 0 },
        },
    );
    let mut consumers: Vec<Consumer> = Vec::new();
    consumers.push(
        Consumer {
            entity: 1,
            generator: Generator { input: Mixture { contents: desired } },
            input: ResourceInput { max_flow_rate: 5 * SCALE },
        },
    );
    let mut connections: Vec<Connection> = Vec::new();
    connections.push(Connection { source: 0, target: 1 });
    Network { producers, consumers, connections }
}

} // verus!
