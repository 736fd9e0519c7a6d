use vstd::prelude::*;

use crate::behavior_module::MetaPorts;
use crate::meta_signals::MetaSignal;
use crate::port::PortHub;
use crate::shared_data::PortData;
use crate::telemetry::Parent;

verus! {

/// Conversion of a port payload into its tagged telemetry value. Every type
/// a port may carry implements this; the spec relation pins the exec result.
pub trait PortSerialization {
    /// Whether `r` is the tagged value this payload serialises to.
    spec fn spec_is_port_data(&self, r: PortData) -> bool;

    /// Produces the tagged telemetry value of this payload.
    fn serialize_port_data(&self) -> (r: PortData)
        ensures
            self.spec_is_port_data(r),
    ;
}

impl PortSerialization for i32 {
    open spec fn spec_is_port_data(&self, r: PortData) -> bool {
        r == PortData::Int(*self as i64)
    }

    fn serialize_port_data(&self) -> (r: PortData) {
        PortData::Int(*self as i64)
    }
}

impl PortSerialization for i64 {
    open spec fn spec_is_port_data(&self, r: PortData) -> bool {
        r == PortData::Int(*self)
    }

    fn serialize_port_data(&self) -> (r: PortData) {
        PortData::Int(*self)
    }
}

impl PortSerialization for u32 {
    open spec fn spec_is_port_data(&self, r: PortData) -> bool {
        r == PortData::Unsigned(*self as u64)
    }

    fn serialize_port_data(&self) -> (r: PortData) {
        PortData::Unsigned(*self as u64)
    }
}

impl PortSerialization for u64 {
    open spec fn spec_is_port_data(&self, r: PortData) -> bool {
        r == PortData::Unsigned(*self)
    }

    fn serialize_port_data(&self) -> (r: PortData) {
        PortData::Unsigned(*self)
    }
}

impl PortSerialization for bool {
    open spec fn spec_is_port_data(&self, r: PortData) -> bool {
        r == PortData::Bool(*self)
    }

    fn serialize_port_data(&self) -> (r: PortData) {
        PortData::Bool(*self)
    }
}

impl PortSerialization for String {
    open spec fn spec_is_port_data(&self, r: PortData) -> bool {
        r == PortData::String(*self)
    }

    fn serialize_port_data(&self) -> (r: PortData) {
        PortData::String(self.clone())
    }
}

impl PortSerialization for MetaSignal {
    open spec fn spec_is_port_data(&self, r: PortData) -> bool {
        r == PortData::MetaSignal(*self)
    }

    fn serialize_port_data(&self) -> (r: PortData) {
        PortData::MetaSignal(*self)
    }
}

/// A behaviour module's own logic: how it is created, what it computes each
/// cycle, and how well it believes it can satisfy its goal. `C` is the
/// context the surrounding system threads through every module, typically a
/// struct of the port hubs the module's ports live in.
pub trait Module<C>: UpdateReceivePorts<C> + PortParsing<C> {
    /// Whether `ctx` can take this module's ports.
    spec fn ctx_ready(ctx: C) -> bool;

    /// Creates the module and its ports inside `ctx`.
    fn init(ctx: &mut C) -> (r: Self) where Self: Sized
        requires
            Self::ctx_ready(*old(ctx)),
        ensures
            r.ctx_inv(*final(ctx)),
    ;

    /// The transfer function: reads receive and parameter snapshots, writes
    /// send ports. Runs once per cycle between the port update and the
    /// meta-signal computation; `delta_time_micros` is the wall time since
    /// the previous cycle started.
    fn transfere(&mut self, ctx: &mut C, delta_time_micros: u64)
        requires
            old(self).ctx_inv(*old(ctx)),
        ensures
            final(self).ctx_inv(*final(ctx)),
    ;

    /// How well this behaviour believes it can satisfy its goal right now.
    fn target_rating(&self) -> MetaSignal;
}

/// A group of behaviour modules: `init` builds the children, wires their
/// ports, and designates the characteristic module whose meta-signals stand
/// for the group. A group runs no cycle of its own; its behaviour is the
/// union of its children's loops. The contract asks only that wiring leave
/// the hub well-formed and never remove cells, so drivers built before and
/// after stay usable.
pub trait Group<C> {
    fn init(
        &mut self,
        cycle_time_micros: u64,
        parent: &Parent,
        group_meta: &MetaPorts,
        meta_hub: &mut PortHub<MetaSignal>,
        ctx: &mut C,
    )
        requires
            old(meta_hub).wf(),
            group_meta.wf(*old(meta_hub)),
        ensures
            final(meta_hub).wf(),
            final(meta_hub)@.len() >= old(meta_hub)@.len(),
    ;
}

/// Refreshing the local snapshots of every receive and parameter port a
/// module owns; called by the driver at the start of each cycle.
pub trait UpdateReceivePorts<C> {
    /// The module's ports name live cells of the hubs inside `ctx`.
    spec fn ctx_inv(&self, ctx: C) -> bool;

    fn update_all_ports(&mut self, ctx: &mut C)
        requires
            old(self).ctx_inv(*old(ctx)),
        ensures
            final(self).ctx_inv(*final(ctx)),
    ;
}

/// Producing the tagged values of every user port for one telemetry
/// snapshot.
pub trait PortParsing<C>: UpdateReceivePorts<C> {
    /// Whether `listing` is this module's port listing for the given
    /// context: each port's name paired with its tagged value.
    spec fn spec_is_port_listing(&self, ctx: C, listing: Seq<(String, PortData)>) -> bool;

    fn all_port_data(&self, ctx: &C) -> (r: Vec<(String, PortData)>)
        requires
            self.ctx_inv(*ctx),
        ensures
            self.spec_is_port_listing(*ctx, r@),
    ;
}

} // verus!
