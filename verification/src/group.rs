use vstd::prelude::*;

use crate::behavior_module::{characteristic_wiring_ok, MetaPorts};
use crate::meta_signals::MetaSignal;
use crate::port::PortHub;
use crate::telemetry::Parent;
use crate::traits::Group;

verus! {

/// A recursive composite that looks like a module from the outside: it has
/// the four standard meta-signal ports, sits in the telemetry path
/// hierarchy, and forwards its meta-signals to and from one designated
/// child. It runs no cycle loop of its own.
pub struct BehaviorGroup<G> {
    pub module: G,
    pub meta: MetaPorts,
    path: String,
}

impl<G> BehaviorGroup<G> {
    /// The group's hierarchical path.
    pub closed spec fn spec_path(self) -> Seq<char> {
        self.path@
    }

    /// The group's four standard meta-signal ports.
    pub closed spec fn spec_meta(self) -> MetaPorts {
        self.meta
    }

    /// The group's standard ports name cells of `hub`.
    pub closed spec fn wf(self, hub: PortHub<MetaSignal>) -> bool {
        self.meta.wf(hub)
    }

    /// Creates a group under `parent`: its standard ports are created in
    /// `meta_hub`, then the user's `init` builds and wires the children.
    pub fn with_name<C>(
        name: &str,
        cycle_time_micros: u64,
        parent: &Parent,
        meta_hub: &mut PortHub<MetaSignal>,
        ctx: &mut C,
    ) -> (r: Self) where G: Group<C> + Default
        requires
            old(meta_hub).wf(),
            old(meta_hub)@.len() + 4 <= usize::MAX,
        ensures
            final(meta_hub).wf(),
            r.wf(*final(meta_hub)),
            r.spec_path() == parent.path@ + "/"@ + name@,
    {
        let meta = MetaPorts::new(meta_hub);
        let group_parent = parent.child(name);
        let mut module = G::default();
        module.init(cycle_time_micros, &group_parent, &meta, meta_hub, ctx);
        let r = BehaviorGroup { module, meta, path: group_parent.path };
        proof {
            assert(r.meta.wf(*final(meta_hub)));
        }
        r
    }

    /// Creates the root group of a running system: its path is its own
    /// name. The host installs the telemetry drain beside it and passes the
    /// slot to every driver's snapshots.
    pub fn main_group<C>(
        name: &str,
        cycle_time_micros: u64,
        meta_hub: &mut PortHub<MetaSignal>,
        ctx: &mut C,
    ) -> (r: Self) where G: Group<C> + Default
        requires
            old(meta_hub).wf(),
            old(meta_hub)@.len() + 4 <= usize::MAX,
        ensures
            final(meta_hub).wf(),
            r.wf(*final(meta_hub)),
            r.spec_path() == name@,
    {
        let meta = MetaPorts::new(meta_hub);
        let group_parent = Parent::root(name);
        let mut module = G::default();
        module.init(cycle_time_micros, &group_parent, &meta, meta_hub, ctx);
        let r = BehaviorGroup { module, meta, path: group_parent.path };
        proof {
            assert(r.meta.wf(*final(meta_hub)));
        }
        r
    }

    /// Designates `child` as the group's characteristic module: the group
    /// publishes the child's activity and target rating, and the group's
    /// stimulation and inhibition feed the child's.
    pub fn set_characteristic_module(&self, hub: &mut PortHub<MetaSignal>, child: &MetaPorts)
        requires
            old(hub).wf(),
            self.wf(*old(hub)),
            child.wf(*old(hub)),
            characteristic_wiring_ok(*old(hub), self.spec_meta(), *child),
        ensures
            final(hub).wf(),
            final(hub)@.len() == old(hub)@.len(),
            self.wf(*final(hub)),
            child.wf(*final(hub)),
            final(hub).terminus(self.spec_meta().activity.port_id()) == old(hub).terminus(
                child.activity.port_id(),
            ),
            final(hub).terminus(self.spec_meta().target_rating.port_id()) == old(hub).terminus(
                child.target_rating.port_id(),
            ),
            final(hub).terminus(child.stimulation.port_id()) == old(hub).terminus(
                self.spec_meta().stimulation.port_id(),
            ),
            final(hub).terminus(child.inhibition.port_id()) == old(hub).terminus(
                self.spec_meta().inhibition.port_id(),
            ),
    {
        self.meta.set_characteristic_module(hub, child);
    }
}

} // verus!
