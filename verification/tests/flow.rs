use space_sim::model::Connection;
use space_sim::model::Consumer;
use space_sim::model::Diagnostic;
use space_sim::model::Generator;
use space_sim::model::Producer;
use space_sim::model::ResourceInput;
use space_sim::model::ResourceOutput;
use space_sim::model::Tank;
use space_sim::composition::Mixture;
use space_sim::composition::Substance;
use space_sim::production::provide;
use space_sim::resolve::is_connected;
use space_sim::resolve::solve_network;
use space_sim::simulation::setup;
use space_sim::simulation::tick;
use space_sim::SCALE;

fn one_second() -> u64 {
    SCALE
}

#[test]
fn production_scenario() {
    // Tank of 100.0, output rate 10.0, empty buffer: one one-second tick
    // moves min(100.0 - 0.0, 10.0) * 1.0 = 10.0 into the buffer.
    let mut net = setup();
    provide(&mut net.producers, one_second());
    assert_eq!(net.producers[0].tank.capacity, 90 * SCALE);
    assert_eq!(net.producers[0].output.currently_available, 10 * SCALE);
}

#[test]
fn delivery_scenario() {
    // Continuing from production: the generator's input rate is 5.0, so
    // resolution delivers min(10.0, 5.0) * 1.0 = 5.0 and reports it.
    let mut net = setup();
    provide(&mut net.producers, one_second());
    let diags = solve_network(
        &mut net.producers,
        &net.consumers,
        &net.connections,
        one_second(),
    );
    assert_eq!(net.producers[0].output.currently_available, 5 * SCALE);
    assert_eq!(
        diags,
        vec![Diagnostic::Delivered { amount: 5 * SCALE, from: 0, to: 1 }]
    );
}

#[test]
fn unconnected_scenario() {
    // Same tank and output, connection removed: nothing is delivered, the
    // buffer keeps its mass, and the pair is reported as unconnected.
    let mut net = setup();
    provide(&mut net.producers, one_second());
    net.connections = Vec::new();
    let diags = solve_network(
        &mut net.producers,
        &net.consumers,
        &net.connections,
        one_second(),
    );
    assert_eq!(net.producers[0].output.currently_available, 10 * SCALE);
    assert_eq!(
        diags,
        vec![Diagnostic::UnconnectedInput { input_entity: 1, output_entity: 0 }]
    );
}

#[test]
fn zero_length_tick_changes_nothing() {
    let mut net = setup();
    // Put some mass in flight first, so every field is non-trivial.
    let _ = tick(&mut net, one_second());
    let capacity = net.producers[0].tank.capacity;
    let available = net.producers[0].output.currently_available;
    let in_rate = net.consumers[0].input.max_flow_rate;
    let diags = tick(&mut net, 0);
    assert_eq!(net.producers[0].tank.capacity, capacity);
    assert_eq!(net.producers[0].output.currently_available, available);
    assert_eq!(net.consumers[0].input.max_flow_rate, in_rate);
    // The unconnected report would still be emitted, but this pair is
    // connected and a zero delivery is not reported.
    assert_eq!(diags, Vec::new());
}

#[test]
fn full_tick_matches_phases() {
    // One tick = production then resolution: capacity 90.0, buffer
    // 10.0 - 5.0 = 5.0, one delivery report.
    let mut net = setup();
    let diags = tick(&mut net, one_second());
    assert_eq!(net.producers[0].tank.capacity, 90 * SCALE);
    assert_eq!(net.producers[0].output.currently_available, 5 * SCALE);
    assert_eq!(
        diags,
        vec![Diagnostic::Delivered { amount: 5 * SCALE, from: 0, to: 1 }]
    );
}

#[test]
fn production_floors_at_zero_when_buffer_exceeds_capacity() {
    // A tank holding less than its buffer already exposes gives nothing.
    let mut producers = vec![Producer {
        entity: 7,
        tank: Tank {
            contents: Mixture::default(),
            capacity: 2 * SCALE,
            pressure: SCALE,
            maximum_pressure: 4 * SCALE,
        },
        output: ResourceOutput { max_flow_rate: 10 * SCALE, currently_available: 3 * SCALE },
    }];
    provide(&mut producers, one_second());
    assert_eq!(producers[0].tank.capacity, 2 * SCALE);
    assert_eq!(producers[0].output.currently_available, 3 * SCALE);
}

#[test]
fn long_tick_drains_buffer_to_zero_floor() {
    // A two-second tick can compute a delivery larger than the buffer;
    // the buffer floors at zero and the computed amount is reported.
    let mut producers = vec![Producer {
        entity: 3,
        tank: Tank {
            contents: Mixture::default(),
            capacity: 0,
            pressure: SCALE,
            maximum_pressure: 4 * SCALE,
        },
        output: ResourceOutput { max_flow_rate: 10 * SCALE, currently_available: SCALE },
    }];
    let consumers = vec![Consumer {
        entity: 4,
        generator: Generator { input: Mixture::default() },
        input: ResourceInput { max_flow_rate: 10 * SCALE },
    }];
    let connections = vec![Connection { source: 3, target: 4 }];
    let diags = solve_network(&mut producers, &consumers, &connections, 2 * SCALE);
    assert_eq!(producers[0].output.currently_available, 0);
    assert_eq!(
        diags,
        vec![Diagnostic::Delivered { amount: 2 * SCALE, from: 3, to: 4 }]
    );
}

#[test]
fn each_connected_pair_is_drained_independently() {
    // Two producers feeding one consumer: the input's rate cap applies to
    // each pair separately, not to the pair's sum.
    let tank = || Tank {
        contents: Mixture::default(),
        capacity: 100 * SCALE,
        pressure: SCALE,
        maximum_pressure: 4 * SCALE,
    };
    let mut producers = vec![
        Producer {
            entity: 10,
            tank: tank(),
            output: ResourceOutput { max_flow_rate: 10 * SCALE, currently_available: 8 * SCALE },
        },
        Producer {
            entity: 11,
            tank: tank(),
            output: ResourceOutput { max_flow_rate: 10 * SCALE, currently_available: 8 * SCALE },
        },
    ];
    let consumers = vec![Consumer {
        entity: 12,
        generator: Generator { input: Mixture::default() },
        input: ResourceInput { max_flow_rate: 5 * SCALE },
    }];
    let connections = vec![
        Connection { source: 10, target: 12 },
        Connection { source: 11, target: 12 },
    ];
    let diags = solve_network(&mut producers, &consumers, &connections, one_second());
    assert_eq!(producers[0].output.currently_available, 3 * SCALE);
    assert_eq!(producers[1].output.currently_available, 3 * SCALE);
    assert_eq!(
        diags,
        vec![
            Diagnostic::Delivered { amount: 5 * SCALE, from: 10, to: 12 },
            Diagnostic::Delivered { amount: 5 * SCALE, from: 11, to: 12 },
        ]
    );
}

#[test]
fn consumers_drain_a_shared_producer_in_order() {
    // Two consumers fed by one producer take their passes in order: the
    // second sees only what the first left behind.
    let mut producers = vec![Producer {
        entity: 20,
        tank: Tank {
            contents: Mixture::default(),
            capacity: 100 * SCALE,
            pressure: SCALE,
            maximum_pressure: 4 * SCALE,
        },
        output: ResourceOutput { max_flow_rate: 10 * SCALE, currently_available: 8 * SCALE },
    }];
    let consumer = |entity: u64| Consumer {
        entity,
        generator: Generator { input: Mixture::default() },
        input: ResourceInput { max_flow_rate: 5 * SCALE },
    };
    let consumers = vec![consumer(21), consumer(22)];
    let connections = vec![
        Connection { source: 20, target: 21 },
        Connection { source: 20, target: 22 },
    ];
    let diags = solve_network(&mut producers, &consumers, &connections, one_second());
    assert_eq!(producers[0].output.currently_available, 0);
    assert_eq!(
        diags,
        vec![
            Diagnostic::Delivered { amount: 5 * SCALE, from: 20, to: 21 },
            Diagnostic::Delivered { amount: 3 * SCALE, from: 20, to: 22 },
        ]
    );
}

#[test]
fn reports_follow_the_visiting_order() {
    // One consumer, two producers, only the second connected: the
    // unconnected report for the first pair comes before the delivery.
    let tank = || Tank {
        contents: Mixture::default(),
        capacity: 100 * SCALE,
        pressure: SCALE,
        maximum_pressure: 4 * SCALE,
    };
    let mut producers = vec![
        Producer {
            entity: 30,
            tank: tank(),
            output: ResourceOutput { max_flow_rate: 10 * SCALE, currently_available: 8 * SCALE },
        },
        Producer {
            entity: 31,
            tank: tank(),
            output: ResourceOutput { max_flow_rate: 10 * SCALE, currently_available: 8 * SCALE },
        },
    ];
    let consumers = vec![Consumer {
        entity: 32,
        generator: Generator { input: Mixture::default() },
        input: ResourceInput { max_flow_rate: 5 * SCALE },
    }];
    let connections = vec![Connection { source: 31, target: 32 }];
    let diags = solve_network(&mut producers, &consumers, &connections, one_second());
    assert_eq!(producers[0].output.currently_available, 8 * SCALE);
    assert_eq!(producers[1].output.currently_available, 3 * SCALE);
    assert_eq!(
        diags,
        vec![
            Diagnostic::UnconnectedInput { input_entity: 32, output_entity: 30 },
            Diagnostic::Delivered { amount: 5 * SCALE, from: 31, to: 32 },
        ]
    );
}

#[test]
fn connection_lookup_is_directed() {
    let connections = vec![Connection { source: 0, target: 1 }];
    assert!(is_connected(&connections, 0, 1));
    assert!(!is_connected(&connections, 1, 0));
    assert!(!is_connected(&connections, 0, 2));
    assert!(!is_connected(&Vec::new(), 0, 1));
}

#[test]
fn capacity_is_monotone_over_many_ticks() {
    let mut net = setup();
    let mut last = net.producers[0].tank.capacity;
    for _ in 0..20 {
        let _ = tick(&mut net, one_second());
        let now = net.producers[0].tank.capacity;
        assert!(now <= last);
        last = now;
    }
}

#[test]
fn setup_builds_the_demonstration_scenario() {
    let net = setup();
    assert_eq!(net.producers.len(), 1);
    assert_eq!(net.consumers.len(), 1);
    assert_eq!(net.connections.len(), 1);
    assert_eq!(net.producers[0].tank.capacity, 100 * SCALE);
    assert_eq!(
        net.producers[0].tank.contents.contents,
        vec![(Substance::Oxygen, 30_000), (Substance::Hydrogen, 70_000)]
    );
    assert_eq!(net.producers[0].output.max_flow_rate, 10 * SCALE);
    assert_eq!(net.consumers[0].input.max_flow_rate, 5 * SCALE);
    assert_eq!(net.connections[0], Connection { source: 0, target: 1 });
}
