use vstd::prelude::*;

use crate::meta_signals::{
    compute_meta_signals, inhib_or_default, spec_activity, spec_potential, stim_or_default,
    MetaSignal,
};
use crate::port::{Port, PortCell, PortHub, ReceivePort, SendPort};
use crate::shared_data::SharedData;
use crate::telemetry::Parent;
use crate::traits::Module;

verus! {

/// The four standard ports every module and fusion node exposes, plus the
/// wall time since the previous cycle. Activity and target rating are
/// published on send ports for parents and fusion nodes to read; stimulation
/// and inhibition arrive on receive ports.
pub struct MetaPorts {
    pub activity: SendPort<MetaSignal>,
    pub target_rating: SendPort<MetaSignal>,
    pub stimulation: ReceivePort<MetaSignal>,
    pub inhibition: ReceivePort<MetaSignal>,
    pub delta_time_micros: u64,
}

impl MetaPorts {
    /// All four standard ports name cells of `hub`.
    pub open spec fn wf(self, hub: PortHub<MetaSignal>) -> bool {
        &&& 0 <= self.activity.port_id() < hub@.len()
        &&& 0 <= self.target_rating.port_id() < hub@.len()
        &&& 0 <= self.stimulation.port_id() < hub@.len()
        &&& 0 <= self.inhibition.port_id() < hub@.len()
    }

    /// Creates the four standard ports as fresh, empty cells of `hub`.
    pub fn new(hub: &mut PortHub<MetaSignal>) -> (r: Self)
        requires
            old(hub).wf(),
            old(hub)@.len() + 4 <= usize::MAX,
        ensures
            final(hub).wf(),
            r.wf(*final(hub)),
            r.delta_time_micros == 0,
            r.stimulation.snapshot() is None,
            r.inhibition.snapshot() is None,
            final(hub)@.len() == old(hub)@.len() + 4,
            r.activity.port_id() == old(hub)@.len(),
            r.target_rating.port_id() == old(hub)@.len() + 1,
            r.stimulation.port_id() == old(hub)@.len() + 2,
            r.inhibition.port_id() == old(hub)@.len() + 3,
            forall|k: int| 0 <= k < old(hub)@.len() ==> final(hub)@[k] == old(hub)@[k],
            forall|k: int|
                old(hub)@.len() <= k < final(hub)@.len() ==> final(hub)@[k]
                    == PortCell::<MetaSignal>::Buffer(None),
            forall|k: int|
                0 <= k < old(hub)@.len() ==> final(hub).terminus(k) == old(hub).terminus(k),
            forall|k: int|
                old(hub)@.len() <= k < final(hub)@.len() ==> final(hub).terminus(k) == k,
            forall|a: int, b: int|
                0 <= a < old(hub)@.len() ==> (final(hub).reaches(a, b) == old(hub).reaches(a, b)),
            forall|k: int, b: int|
                old(hub)@.len() <= k < final(hub)@.len() ==> (final(hub).reaches(k, b) <==> b
                    == k),
            forall|a: int, k: int|
                0 <= a < final(hub)@.len() && old(hub)@.len() <= k < final(hub)@.len() && a != k
                    ==> !final(hub).reaches(a, k),
    {
        let ghost n0 = old(hub)@.len() as int;
        let activity = SendPort::new(hub);
        let target_rating = SendPort::new(hub);
        let stimulation = ReceivePort::new(hub);
        let inhibition = ReceivePort::new(hub);
        let r = MetaPorts { activity, target_rating, stimulation, inhibition, delta_time_micros: 0 };
        proof {
            assert(final(hub)@.len() == n0 + 4);
            assert forall|k: int|
                n0 <= k < final(hub)@.len() implies final(hub)@[k] == PortCell::<
                MetaSignal,
            >::Buffer(None) by {}
        }
        r
    }
}

} // verus!

verus! {

impl MetaPorts {
    /// Refreshes the stimulation and inhibition snapshots from the hub; the
    /// transfer function then sees stable values for the whole cycle.
    pub fn update(&mut self, hub: &PortHub<MetaSignal>)
        requires
            hub.wf(),
            old(self).wf(*hub),
        ensures
            final(self).wf(*hub),
            final(self).activity == old(self).activity,
            final(self).target_rating == old(self).target_rating,
            final(self).stimulation.port_id() == old(self).stimulation.port_id(),
            final(self).inhibition.port_id() == old(self).inhibition.port_id(),
            final(self).delta_time_micros == old(self).delta_time_micros,
            final(self).stimulation.snapshot() == hub.stored(old(self).stimulation.port_id()),
            final(self).inhibition.snapshot() == hub.stored(old(self).inhibition.port_id()),
    {
        self.stimulation.update_copied(hub);
        self.inhibition.update_copied(hub);
    }

    /// The stimulation snapshot, if a producer has published one.
    pub fn get_stimulation(&self) -> (r: Option<MetaSignal>)
        ensures
            r == self.stimulation.snapshot(),
    {
        match self.stimulation.get() {
            Some(v) => Some(*v),
            None => None,
        }
    }

    /// The inhibition snapshot, if a producer has published one.
    pub fn get_inhibition(&self) -> (r: Option<MetaSignal>)
        ensures
            r == self.inhibition.snapshot(),
    {
        match self.inhibition.get() {
            Some(v) => Some(*v),
            None => None,
        }
    }

    /// Publishes the module's activity on its standard send port.
    pub fn set_activity(&self, hub: &mut PortHub<MetaSignal>, activity: MetaSignal)
        requires
            old(hub).wf(),
            self.wf(*old(hub)),
        ensures
            final(hub).wf(),
            self.wf(*final(hub)),
            0 <= old(hub).terminus(self.activity.port_id()) < old(hub)@.len(),
            old(hub)@[old(hub).terminus(self.activity.port_id())] is Buffer,
            final(hub)@ =~= old(hub)@.update(
                old(hub).terminus(self.activity.port_id()),
                PortCell::Buffer(Some(activity)),
            ),
            forall|k: int|
                0 <= k < old(hub)@.len() ==> final(hub).terminus(k) == old(hub).terminus(k),
            forall|a: int, b: int| final(hub).reaches(a, b) == old(hub).reaches(a, b),
            forall|k: int|
                0 <= k < old(hub)@.len() ==> final(hub).stored(k) == (if old(hub).terminus(k)
                    == old(hub).terminus(self.activity.port_id()) {
                    Some(activity)
                } else {
                    old(hub).stored(k)
                }),
    {
        self.activity.send(hub, activity);
        proof {
            assert(hub@.len() == old(hub)@.len());
        }
    }

    /// Publishes the module's target rating on its standard send port.
    pub fn set_target_rating(&self, hub: &mut PortHub<MetaSignal>, target_rating: MetaSignal)
        requires
            old(hub).wf(),
            self.wf(*old(hub)),
        ensures
            final(hub).wf(),
            self.wf(*final(hub)),
            0 <= old(hub).terminus(self.target_rating.port_id()) < old(hub)@.len(),
            old(hub)@[old(hub).terminus(self.target_rating.port_id())] is Buffer,
            final(hub)@ =~= old(hub)@.update(
                old(hub).terminus(self.target_rating.port_id()),
                PortCell::Buffer(Some(target_rating)),
            ),
            forall|k: int|
                0 <= k < old(hub)@.len() ==> final(hub).terminus(k) == old(hub).terminus(k),
            forall|a: int, b: int| final(hub).reaches(a, b) == old(hub).reaches(a, b),
            forall|k: int|
                0 <= k < old(hub)@.len() ==> final(hub).stored(k) == (if old(hub).terminus(k)
                    == old(hub).terminus(self.target_rating.port_id()) {
                    Some(target_rating)
                } else {
                    old(hub).stored(k)
                }),
    {
        self.target_rating.send(hub, target_rating);
        proof {
            assert(hub@.len() == old(hub)@.len());
        }
    }

    /// Reads the activity last published on the chain of the activity port.
    pub fn get_activity(&self, hub: &PortHub<MetaSignal>) -> (r: Option<MetaSignal>)
        requires
            hub.wf(),
            self.wf(*hub),
        ensures
            r == hub.stored(self.activity.port_id()),
    {
        match self.activity.get(hub) {
            Some(v) => Some(*v),
            None => None,
        }
    }

    /// Reads the target rating last published on the chain of the target
    /// rating port.
    pub fn get_target_rating(&self, hub: &PortHub<MetaSignal>) -> (r: Option<MetaSignal>)
        requires
            hub.wf(),
            self.wf(*hub),
        ensures
            r == hub.stored(self.target_rating.port_id()),
    {
        match self.target_rating.get(hub) {
            Some(v) => Some(*v),
            None => None,
        }
    }

    /// The handle of the activity send port, for fusion nodes and parents.
    pub fn get_activity_port(&self) -> (r: Port<MetaSignal>)
        ensures
            r.port_id() == self.activity.port_id(),
    {
        self.activity.port()
    }

    /// The handle of the target rating send port.
    pub fn get_target_rating_port(&self) -> (r: Port<MetaSignal>)
        ensures
            r.port_id() == self.target_rating.port_id(),
    {
        self.target_rating.port()
    }

    /// The handle of the stimulation receive port.
    pub fn get_stimulation_port(&self) -> (r: Port<MetaSignal>)
        ensures
            r.port_id() == self.stimulation.port_id(),
    {
        self.stimulation.port()
    }

    /// The handle of the inhibition receive port.
    pub fn get_inhibition_port(&self) -> (r: Port<MetaSignal>)
        ensures
            r.port_id() == self.inhibition.port_id(),
    {
        self.inhibition.port()
    }

    /// Records the wall time since the previous cycle.
    pub fn set_delta_time(&mut self, delta_time_micros: u64)
        ensures
            final(self).delta_time_micros == delta_time_micros,
            final(self).activity == old(self).activity,
            final(self).target_rating == old(self).target_rating,
            final(self).stimulation == old(self).stimulation,
            final(self).inhibition == old(self).inhibition,
    {
        self.delta_time_micros = delta_time_micros;
    }
}

} // verus!

verus! {

/// The wiring precondition for designating a characteristic module: none of
/// the four source chains (the child's activity and target rating, the
/// group's stimulation and inhibition) passes through any of the four cells
/// about to be rewired, and those four cells are distinct.
pub open spec fn characteristic_wiring_ok(
    hub: PortHub<MetaSignal>,
    group: MetaPorts,
    child: MetaPorts,
) -> bool {
    let t_act = group.activity.port_id();
    let t_tr = group.target_rating.port_id();
    let t_stim = child.stimulation.port_id();
    let t_inhib = child.inhibition.port_id();
    let s_act = child.activity.port_id();
    let s_tr = child.target_rating.port_id();
    let s_stim = group.stimulation.port_id();
    let s_inhib = group.inhibition.port_id();
    &&& !hub.reaches(s_act, t_act)
    &&& !hub.reaches(s_act, t_tr)
    &&& !hub.reaches(s_act, t_stim)
    &&& !hub.reaches(s_act, t_inhib)
    &&& !hub.reaches(s_tr, t_act)
    &&& !hub.reaches(s_tr, t_tr)
    &&& !hub.reaches(s_tr, t_stim)
    &&& !hub.reaches(s_tr, t_inhib)
    &&& !hub.reaches(s_stim, t_act)
    &&& !hub.reaches(s_stim, t_tr)
    &&& !hub.reaches(s_stim, t_stim)
    &&& !hub.reaches(s_stim, t_inhib)
    &&& !hub.reaches(s_inhib, t_act)
    &&& !hub.reaches(s_inhib, t_tr)
    &&& !hub.reaches(s_inhib, t_stim)
    &&& !hub.reaches(s_inhib, t_inhib)
    &&& t_act != t_tr
    &&& t_act != t_stim
    &&& t_act != t_inhib
    &&& t_tr != t_stim
    &&& t_tr != t_inhib
    &&& t_stim != t_inhib
}

impl MetaPorts {
    /// Designates `child` as the node whose meta-signals stand for this
    /// group: the group's activity and target rating forward to the child's,
    /// and the group's stimulation and inhibition feed the child's.
    pub fn set_characteristic_module(&self, hub: &mut PortHub<MetaSignal>, child: &MetaPorts)
        requires
            old(hub).wf(),
            self.wf(*old(hub)),
            child.wf(*old(hub)),
            characteristic_wiring_ok(*old(hub), *self, *child),
        ensures
            final(hub).wf(),
            final(hub)@.len() == old(hub)@.len(),
            self.wf(*final(hub)),
            child.wf(*final(hub)),
            final(hub).terminus(self.activity.port_id()) == old(hub).terminus(
                child.activity.port_id(),
            ),
            final(hub).terminus(self.target_rating.port_id()) == old(hub).terminus(
                child.target_rating.port_id(),
            ),
            final(hub).terminus(child.stimulation.port_id()) == old(hub).terminus(
                self.stimulation.port_id(),
            ),
            final(hub).terminus(child.inhibition.port_id()) == old(hub).terminus(
                self.inhibition.port_id(),
            ),
    {
        let ghost h0 = *hub;
        let ghost t_act = self.activity.port_id();
        let ghost t_tr = self.target_rating.port_id();
        let ghost t_stim = child.stimulation.port_id();
        let ghost t_inhib = child.inhibition.port_id();
        let ghost s_act = child.activity.port_id();
        let ghost s_tr = child.target_rating.port_id();
        let ghost s_stim = self.stimulation.port_id();
        let ghost s_inhib = self.inhibition.port_id();

        self.activity.connect_to_source(hub, &child.get_activity_port());
        let ghost h1 = *hub;
        proof {
            // The remaining source chains avoided the rewired cell, so their
            // reach relations are unchanged.
            assert(!h1.reaches(s_tr, t_tr));
            assert(!h1.reaches(s_stim, t_stim));
            assert(!h1.reaches(s_inhib, t_inhib));
            // The rewired cell reaches only itself and the child chain.
            assert(!h1.reaches(t_act, t_tr));
            assert(!h1.reaches(t_act, t_stim));
            assert(!h1.reaches(t_act, t_inhib));
        }
        self.target_rating.connect_to_source(hub, &child.get_target_rating_port());
        let ghost h2 = *hub;
        proof {
            assert(!h2.reaches(s_stim, t_stim));
            assert(!h2.reaches(s_inhib, t_inhib));
            assert(!h2.reaches(t_act, t_stim));
            assert(!h2.reaches(t_act, t_inhib));
            assert(h2.reaches(t_tr, t_stim) <==> (t_stim == t_tr || h1.reaches(s_tr, t_stim)));
            assert(!h2.reaches(t_tr, t_stim));
            assert(!h2.reaches(t_tr, t_inhib));
            assert(h2.terminus(t_act) == h1.terminus(t_act));
        }
        self.stimulation.connect_as_source(hub, &child.get_stimulation_port());
        let ghost h3 = *hub;
        proof {
            assert(!h3.reaches(s_inhib, t_inhib));
            assert(!h3.reaches(t_act, t_inhib));
            assert(!h3.reaches(t_tr, t_inhib));
            assert(h3.reaches(t_stim, t_inhib) <==> (t_inhib == t_stim || h2.reaches(
                s_stim,
                t_inhib,
            )));
            assert(!h3.reaches(t_stim, t_inhib));
            assert(h3.terminus(t_act) == h2.terminus(t_act));
            assert(h3.terminus(t_tr) == h2.terminus(t_tr));
        }
        self.inhibition.connect_as_source(hub, &child.get_inhibition_port());
        proof {
            assert(final(hub).terminus(t_act) == h3.terminus(t_act));
            assert(final(hub).terminus(t_tr) == h3.terminus(t_tr));
            assert(final(hub).terminus(t_stim) == h3.terminus(t_stim));
        }
    }
}

} // verus!

verus! {

/// The time left in a cycle's period: the driver sleeps this long after the
/// cycle's work, so a cycle whose work took less than the period lasts
/// exactly the period, and an overrunning cycle continues immediately.
pub open spec fn spec_sleep_budget(cycle_time_micros: u64, elapsed_micros: u64) -> int {
    if elapsed_micros < cycle_time_micros {
        cycle_time_micros - elapsed_micros
    } else {
        0
    }
}

/// Ends one cycle: returns how long to sleep and whether the cycle overran
/// its period. The driver reports an overrun diagnostically and proceeds
/// immediately; there is no catch-up and no skipping.
pub fn cycle_wait(cycle_time_micros: u64, elapsed_micros: u64) -> (r: (u64, bool))
    ensures
        r.0 == spec_sleep_budget(cycle_time_micros, elapsed_micros),
        r.1 == (elapsed_micros >= cycle_time_micros),
        elapsed_micros < cycle_time_micros ==> elapsed_micros + r.0 == cycle_time_micros,
        elapsed_micros >= cycle_time_micros ==> r.0 == 0,
{
    if elapsed_micros < cycle_time_micros {
        (cycle_time_micros - elapsed_micros, false)
    } else {
        (0, true)
    }
}

/// The driver that runs one user module on a fixed period: it refreshes the
/// module's ports, runs the transfer function, computes and publishes the
/// meta-signals, and builds the telemetry snapshot for the cycle.
pub struct BehaviorModule<M> {
    pub module: M,
    pub meta: MetaPorts,
    name: String,
    path: String,
    cycle_time_micros: u64,
    last_update_micros: u64,
    loop_count: u64,
}

impl<M> BehaviorModule<M> {
    /// The module's own name.
    pub closed spec fn spec_name(self) -> Seq<char> {
        self.name@
    }

    /// The module's hierarchical path, parent path and name joined by "/".
    pub closed spec fn spec_path(self) -> Seq<char> {
        self.path@
    }

    /// The driver's period.
    pub closed spec fn spec_cycle_time(self) -> u64 {
        self.cycle_time_micros
    }

    /// When the previous cycle started.
    pub closed spec fn spec_last_update(self) -> u64 {
        self.last_update_micros
    }

    /// How many cycles have completed.
    pub closed spec fn spec_loop_count(self) -> u64 {
        self.loop_count
    }

    /// The driver's four standard meta-signal ports.
    pub closed spec fn spec_meta(self) -> MetaPorts {
        self.meta
    }

    /// The user module inside the driver.
    pub closed spec fn spec_module(self) -> M {
        self.module
    }

    /// The driver's standard meta-signal ports, tied to their specification,
    /// so a verified caller can wire a fusion to this module or feed its
    /// stimulation and inhibition.
    pub fn meta_ports(&self) -> (r: &MetaPorts)
        ensures
            *r == self.spec_meta(),
    {
        &self.meta
    }

    /// The user module inside the driver, tied to its specification.
    pub fn user_module(&self) -> (r: &M)
        ensures
            *r == self.spec_module(),
    {
        &self.module
    }

    /// The driver's standard ports name cells of `hub`.
    pub closed spec fn wf(self, hub: PortHub<MetaSignal>) -> bool {
        self.meta.wf(hub)
    }

    /// Well-formedness only asks that the standard ports be in range, so it
    /// survives any hub growth.
    pub proof fn lemma_wf_grow(self, h1: PortHub<MetaSignal>, h2: PortHub<MetaSignal>)
        requires
            self.wf(h1),
            h2@.len() >= h1@.len(),
        ensures
            self.wf(h2),
    {
    }
}

impl<M> BehaviorModule<M> {
    /// Creates a driver around a fresh instance of the user module `M`. The
    /// four standard ports are created in `meta_hub`; the module creates its
    /// own ports inside `ctx`. `now_micros` seeds the cycle clock.
    pub fn with_name<C>(
        name: &str,
        cycle_time_micros: u64,
        parent: &Parent,
        meta_hub: &mut PortHub<MetaSignal>,
        ctx: &mut C,
        now_micros: u64,
    ) -> (r: Self) where M: Module<C>
        requires
            old(meta_hub).wf(),
            old(meta_hub)@.len() + 4 <= usize::MAX,
            M::ctx_ready(*old(ctx)),
        ensures
            final(meta_hub).wf(),
            r.wf(*final(meta_hub)),
            r.spec_module().ctx_inv(*final(ctx)),
            r.spec_name() == name@,
            r.spec_path() == parent.path@ + "/"@ + name@,
            r.spec_cycle_time() == cycle_time_micros,
            r.spec_last_update() == now_micros,
            r.spec_loop_count() == 0,
            r.spec_meta().delta_time_micros == 0,
            final(meta_hub)@.len() == old(meta_hub)@.len() + 4,
            r.spec_meta().activity.port_id() == old(meta_hub)@.len(),
            r.spec_meta().target_rating.port_id() == old(meta_hub)@.len() + 1,
            r.spec_meta().stimulation.port_id() == old(meta_hub)@.len() + 2,
            r.spec_meta().inhibition.port_id() == old(meta_hub)@.len() + 3,
            forall|k: int| 0 <= k < old(meta_hub)@.len() ==> final(meta_hub)@[k] == old(meta_hub)@[k],
            forall|k: int|
                old(meta_hub)@.len() <= k < final(meta_hub)@.len() ==> final(meta_hub)@[k]
                    == PortCell::<MetaSignal>::Buffer(None),
            forall|k: int|
                0 <= k < old(meta_hub)@.len() ==> final(meta_hub).terminus(k) == old(meta_hub).terminus(k),
            forall|k: int|
                old(meta_hub)@.len() <= k < final(meta_hub)@.len() ==> final(meta_hub).terminus(k)
                    == k,
            forall|a: int, b: int|
                0 <= a < old(meta_hub)@.len() ==> (final(meta_hub).reaches(a, b) == old(meta_hub).reaches(a, b)),
            forall|k: int, b: int|
                old(meta_hub)@.len() <= k < final(meta_hub)@.len() ==> (final(meta_hub).reaches(
                    k,
                    b,
                ) <==> b == k),
            forall|a: int, k: int|
                0 <= a < final(meta_hub)@.len() && old(meta_hub)@.len() <= k < final(meta_hub)@.len() && a != k ==> !final(meta_hub).reaches(a, k),
    {
        let meta = MetaPorts::new(meta_hub);
        let module = M::init(ctx);
        let parent_path = parent.child(name);
        BehaviorModule {
            module,
            meta,
            name: name.to_owned(),
            path: parent_path.path,
            cycle_time_micros,
            last_update_micros: now_micros,
            loop_count: 0,
        }
    }

    /// Runs one cycle of the module, in the order the runtime fixes:
    /// record the time since the previous cycle; refresh the standard and
    /// user receive ports; run the transfer function; compute
    /// `potential = min(stimulation, 1 - inhibition)` and
    /// `activity = min(potential, target rating)` with a missing stimulation
    /// defaulting to HIGH and a missing inhibition to LOW; publish activity
    /// and target rating; and build the cycle's telemetry snapshot. The
    /// caller stamps the snapshot's `active_time_micros` with the measured
    /// wall time and hands it to the telemetry slot.
    pub fn cycle<C>(
        &mut self,
        meta_hub: &mut PortHub<MetaSignal>,
        ctx: &mut C,
        now_micros: u64,
    ) -> (snap: SharedData) where M: Module<C>
        requires
            old(meta_hub).wf(),
            old(self).wf(*old(meta_hub)),
            old(self).spec_module().ctx_inv(*old(ctx)),
            now_micros >= old(self).spec_last_update(),
            old(self).spec_loop_count() < u64::MAX,
        ensures
            final(meta_hub).wf(),
            final(self).wf(*final(meta_hub)),
            final(self).spec_module().ctx_inv(*final(ctx)),
            final(self).spec_name() == old(self).spec_name(),
            final(self).spec_path() == old(self).spec_path(),
            final(self).spec_cycle_time() == old(self).spec_cycle_time(),
            final(self).spec_last_update() == now_micros,
            final(self).spec_loop_count() == old(self).spec_loop_count() + 1,
            final(self).spec_meta().activity == old(self).spec_meta().activity,
            final(self).spec_meta().target_rating == old(self).spec_meta().target_rating,
            final(self).spec_meta().stimulation.port_id() == old(self).spec_meta().stimulation.port_id(),
            final(self).spec_meta().inhibition.port_id() == old(self).spec_meta().inhibition.port_id(),
            final(self).spec_meta().delta_time_micros == now_micros - old(self).spec_last_update(),
            // The snapshot reports this cycle faithfully.
            snap.index == old(self).spec_loop_count() + 1,
            snap.source@ == old(self).spec_path(),
            snap.active_time_micros == 0,
            // The snapshot's data is the module's own port listing.
            final(self).spec_module().spec_is_port_listing(*final(ctx), snap.data@),
            // The meta-signal arithmetic over what the standard ports held.
            snap.stimulation.value() == stim_or_default(
                old(meta_hub).stored(old(self).spec_meta().stimulation.port_id()),
            ),
            snap.inhibition.value() == inhib_or_default(
                old(meta_hub).stored(old(self).spec_meta().inhibition.port_id()),
            ),
            snap.activity.value() == spec_activity(
                spec_potential(snap.stimulation.value(), snap.inhibition.value()),
                snap.target_rating.value(),
            ),
            // The activity and the module's own target rating are published
            // at the termini of the two standard send ports.
            final(meta_hub)@ =~= old(meta_hub)@.update(
                old(meta_hub).terminus(old(self).spec_meta().activity.port_id()),
                PortCell::Buffer(Some(snap.activity)),
            ).update(
                old(meta_hub).terminus(old(self).spec_meta().target_rating.port_id()),
                PortCell::Buffer(Some(snap.target_rating)),
            ),
            final(meta_hub).stored(old(self).spec_meta().target_rating.port_id()) == Some(
                snap.target_rating,
            ),
            old(meta_hub).terminus(old(self).spec_meta().activity.port_id()) != old(meta_hub).terminus(
                old(self).spec_meta().target_rating.port_id(),
            ) ==> final(meta_hub).stored(old(self).spec_meta().activity.port_id()) == Some(snap.activity),
            forall|k: int|
                0 <= k < old(meta_hub)@.len() ==> final(meta_hub).terminus(k) == old(meta_hub).terminus(k),
    {
        let ghost h0 = *meta_hub;
        let delta = now_micros - self.last_update_micros;
        self.last_update_micros = now_micros;
        self.meta.set_delta_time(delta);
        self.meta.update(meta_hub);
        self.module.update_all_ports(ctx);
        self.module.transfere(ctx, delta);
        let target = self.module.target_rating();
        let stimulation = self.meta.get_stimulation();
        let inhibition = self.meta.get_inhibition();
        let computed = compute_meta_signals(stimulation, inhibition, target);
        let activity = computed.1;
        self.meta.set_activity(meta_hub, activity);
        let ghost h1 = *meta_hub;
        self.meta.set_target_rating(meta_hub, target);
        self.loop_count = self.loop_count + 1;
        let data = self.module.all_port_data(ctx);
        let stim_val = match stimulation {
            Some(s) => s,
            None => MetaSignal::high(),
        };
        let inhib_val = match inhibition {
            Some(s) => s,
            None => MetaSignal::low(),
        };
        proof {
            assert(final(meta_hub)@ =~= old(meta_hub)@.update(
                old(meta_hub).terminus(old(self).spec_meta().activity.port_id()),
                PortCell::Buffer(Some(activity)),
            ).update(
                old(meta_hub).terminus(old(self).spec_meta().target_rating.port_id()),
                PortCell::Buffer(Some(target)),
            ));
        }
        SharedData {
            index: self.loop_count,
            activity,
            target_rating: target,
            stimulation: stim_val,
            inhibition: inhib_val,
            active_time_micros: 0,
            source: self.path.clone(),
            data,
        }
    }
}

} // verus!
