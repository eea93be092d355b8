//! The entity model: storage nodes, consumer nodes, flow endpoints,
//! connections and the diagnostic events the solver reports.
//!
//! Entities are independent records correlated only by the opaque numeric
//! identities stored in connections: a connection names its source and
//! target nodes, it does not own them.

use vstd::prelude::*;
use crate::composition::Mixture;
use crate::composition::Temperature;
use crate::AMOUNT_LIMIT;

verus! {

/// Opaque identity of a node. Connections refer to nodes by this value.
pub type EntityId = u64;

/// A storage node: holds a mixture under pressure and gives up mass through
/// an output endpoint. `capacity` is the mass still stored, in fixed point;
/// it only shrinks as production draws mass into the endpoint buffer.
#[derive(Clone, Debug)]
pub struct Tank {
    /// What the tank holds; an empty tank holds the ambient atmosphere.
    pub contents: Mixture,
    /// Mass still stored, in fixed point.
    pub capacity: u64,
    /// Current pressure, in fixed point.
    pub pressure: u64,
    /// Pressure the tank is rated for, in fixed point.
    pub maximum_pressure: u64,
}

/// An ambient volume with its own composition, temperature and pressure.
/// A data holder only: the solver does not yet read it.
#[derive(Clone, Debug)]
pub struct Atmosphere {
    /// Volume of the ambient region, in fixed point.
    pub volume: u64,
    /// Current temperature.
    pub temperature: Temperature,
    /// Current pressure, in fixed point.
    pub pressure: u64,
    /// Composition of the volume.
    pub mixture: Mixture,
}

/// The rate-limited interface through which a node exposes mass.
/// `currently_available` is the buffer production fills and network
/// resolution drains; it is never negative.
#[derive(Clone, Copy, Debug, PartialEq, Eq, Structural)]
pub struct ResourceOutput {
    /// Most mass the node can expose per second, in fixed point.
    pub max_flow_rate: u64,
    /// Mass buffered for delivery but not yet delivered, in fixed point.
    pub currently_available: u64,
}

/// The rate-limited interface through which a node accepts mass. A pure
/// rate cap: it holds no buffer of its own.
#[derive(Clone, Copy, Debug, PartialEq, Eq, Structural)]
pub struct ResourceInput {
    /// Most mass the node can accept per second, in fixed point.
    pub max_flow_rate: u64,
}

/// A directed edge authorizing transfer from the node named `source` to the
/// node named `target`. Several connections may share a source or a target.
#[derive(Clone, Copy, Debug, PartialEq, Eq, Structural)]
pub struct Connection {
    pub source: EntityId,
    pub target: EntityId,
}

/// A consumer node; its desired input composition is informational.
#[derive(Clone, Debug)]
pub struct Generator {
    pub input: Mixture,
}

/// A producing node of the flow graph: a storage tank together with the
/// output endpoint it fills, under one entity identity.
#[derive(Clone, Debug)]
pub struct Producer {
    pub entity: EntityId,
    pub tank: Tank,
    pub output: ResourceOutput,
}

/// A consuming node of the flow graph: a generator together with the input
/// endpoint it accepts mass through, under one entity identity.
#[derive(Clone, Debug)]
pub struct Consumer {
    pub entity: EntityId,
    pub generator: Generator,
    pub input: ResourceInput,
}

/// Informational event emitted during network resolution; never an error.
#[derive(Clone, Copy, Debug, PartialEq, Eq, Structural)]
pub enum Diagnostic {
    /// No connection authorizes flow from `output_entity` to `input_entity`.
    UnconnectedInput { input_entity: EntityId, output_entity: EntityId },
    /// `amount` of mass (fixed point) moved from `from` to `to`.
    Delivered { amount: u64, from: EntityId, to: EntityId },
}

/// Bounds under which the solver's fixed-point products fit in `u64`.
pub open spec fn output_wf(o: ResourceOutput) -> bool {
    &&& o.max_flow_rate <= AMOUNT_LIMIT
    &&& o.currently_available <= AMOUNT_LIMIT
}

pub open spec fn input_wf(i: ResourceInput) -> bool {
    i.max_flow_rate <= AMOUNT_LIMIT
}

pub open spec fn tank_wf(t: Tank) -> bool {
    t.capacity <= AMOUNT_LIMIT
}

pub open spec fn producer_wf(p: Producer) -> bool {
    &&& tank_wf(p.tank)
    &&& output_wf(p.output)
}

pub open spec fn consumer_wf(c: Consumer) -> bool {
    input_wf(c.input)
}

pub open spec fn producers_wf(ps: Seq<Producer>) -> bool {
    forall|i: int| 0 <= i < ps.len() ==> producer_wf(#[trigger] ps[i])
}

pub open spec fn consumers_wf(cs: Seq<Consumer>) -> bool {
    forall|i: int| 0 <= i < cs.len() ==> consumer_wf(#[trigger] cs[i])
}

/// The whole flow graph: the producing nodes, the consuming nodes, and the
/// directed connections between them. Nodes and connections are created at
/// scenario setup and persist for the simulation's lifetime.
#[derive(Clone, Debug)]
pub struct Network {
    pub producers: Vec<Producer>,
    pub consumers: Vec<Consumer>,
    pub connections: Vec<Connection>,
}

pub open spec fn network_wf(n: Network) -> bool {
    &&& producers_wf(n.producers@)
    &&& consumers_wf(n.consumers@)
}

} // verus!
