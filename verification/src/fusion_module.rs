use vstd::prelude::*;

use crate::behavior_module::MetaPorts;
use crate::meta_signals::MetaSignal;
use crate::port::{PortCell, PortHub, ReceivePort, SendPort};
use crate::shared_data::{PortData, SharedData};
use crate::telemetry::Parent;
use crate::traits::PortSerialization;

verus! {

/// A fusion node that forwards the data of the connected input with the
/// largest activity; equal activities keep the earlier-connected input, so
/// insertion order is the tie-breaker. Inputs whose data cell is empty are
/// skipped.
pub struct MaximumFusion<D> {
    pub output: SendPort<D>,
    pub meta: MetaPorts,
    activitys: Vec<ReceivePort<MetaSignal>>,
    target_ratings: Vec<ReceivePort<MetaSignal>>,
    data_ports: Vec<ReceivePort<D>>,
    name: String,
    path: String,
    cycle_time_micros: u64,
    loop_count: u64,
}

impl<D> MaximumFusion<D> {
    /// The fusion node's own name.
    pub closed spec fn spec_name(self) -> Seq<char> {
        self.name@
    }

    /// The fusion node's hierarchical path.
    pub closed spec fn spec_path(self) -> Seq<char> {
        self.path@
    }

    /// The node's period.
    pub closed spec fn spec_cycle_time(self) -> u64 {
        self.cycle_time_micros
    }

    /// How many cycles have completed.
    pub closed spec fn spec_loop_count(self) -> u64 {
        self.loop_count
    }

    /// The node's four standard meta-signal ports.
    pub closed spec fn spec_meta(self) -> MetaPorts {
        self.meta
    }

    /// The node's output send port.
    pub closed spec fn spec_output(self) -> SendPort<D> {
        self.output
    }

    /// How many producers are connected.
    pub closed spec fn input_count(self) -> int {
        self.activitys@.len() as int
    }

    /// The cell the i-th activity input reads.
    pub closed spec fn activity_id(self, i: int) -> int {
        self.activitys@[i].port_id()
    }

    /// The cell the i-th target rating input reads.
    pub closed spec fn target_id(self, i: int) -> int {
        self.target_ratings@[i].port_id()
    }

    /// The cell the i-th data input reads.
    pub closed spec fn data_id(self, i: int) -> int {
        self.data_ports@[i].port_id()
    }

    /// The i-th activity snapshot.
    pub closed spec fn activity_snapshot(self, i: int) -> Option<MetaSignal> {
        self.activitys@[i].snapshot()
    }

    /// The i-th target rating snapshot.
    pub closed spec fn target_snapshot(self, i: int) -> Option<MetaSignal> {
        self.target_ratings@[i].snapshot()
    }

    /// The i-th data snapshot.
    pub closed spec fn data_snapshot(self, i: int) -> Option<D> {
        self.data_ports@[i].snapshot()
    }

    /// The data sequence is as long as the activity sequence.
    pub closed spec fn data_ports_aligned(self) -> bool {
        self.data_ports@.len() == self.activitys@.len()
    }

    /// The node's standard meta-signal ports, tied to their specification.
    pub fn meta_ports(&self) -> (r: &MetaPorts)
        ensures
            *r == self.spec_meta(),
    {
        &self.meta
    }

    /// The node's output send port, tied to its specification.
    pub fn output_port(&self) -> (r: &SendPort<D>)
        ensures
            *r == self.spec_output(),
    {
        &self.output
    }

    /// The three input sequences are index-aligned and every port names a
    /// cell of its hub.
    pub closed spec fn wf(self, meta_hub: PortHub<MetaSignal>, data_hub: PortHub<D>) -> bool {
        &&& self.meta.wf(meta_hub)
        &&& 0 <= self.output.port_id() < data_hub@.len()
        &&& self.target_ratings@.len() == self.activitys@.len()
        &&& self.data_ports@.len() == self.activitys@.len()
        &&& forall|i: int|
            0 <= i < self.input_count() ==> 0 <= #[trigger] self.activity_id(i) < meta_hub@.len()
        &&& forall|i: int|
            0 <= i < self.input_count() ==> 0 <= #[trigger] self.target_id(i) < meta_hub@.len()
        &&& forall|i: int|
            0 <= i < self.input_count() ==> 0 <= #[trigger] self.data_id(i) < data_hub@.len()
    }

    /// Input `i` takes part in the fusion: its activity and data snapshots
    /// are both present and the activity strictly exceeds LOW.
    pub open spec fn candidate(self, i: int) -> bool {
        &&& 0 <= i < self.input_count()
        &&& self.activity_snapshot(i) is Some
        &&& self.data_snapshot(i) is Some
        &&& self.activity_snapshot(i).unwrap().value() > 0
    }

    /// The winner among the first `n` inputs: walk the indices and keep the
    /// first one whose activity strictly exceeds the running maximum.
    pub open spec fn spec_choice_upto(self, n: int) -> Option<int>
        decreases n,
    {
        if n <= 0 {
            None
        } else {
            let prev = self.spec_choice_upto(n - 1);
            if self.candidate(n - 1) && (match prev {
                Option::None => true,
                Option::Some(k) => self.activity_snapshot(n - 1).unwrap().value()
                    > self.activity_snapshot(k).unwrap().value(),
            }) {
                Some(n - 1)
            } else {
                prev
            }
        }
    }

    /// The input whose data the fusion forwards this cycle, if any.
    pub open spec fn spec_choice(self) -> Option<int> {
        self.spec_choice_upto(self.input_count())
    }

    /// The chosen input is a candidate, no candidate beats its activity, and
    /// every earlier candidate is strictly below it — so the maximum wins
    /// and ties keep the earlier-connected input.
    pub proof fn lemma_choice_dominance(self)
        ensures
            self.spec_choice() matches Some(k) ==> {
                &&& self.candidate(k)
                &&& forall|j: int|
                    self.candidate(j) ==> #[trigger] self.activity_snapshot(j).unwrap().value()
                        <= self.activity_snapshot(k).unwrap().value()
                &&& forall|j: int|
                    0 <= j < k && self.candidate(j)
                        ==> #[trigger] self.activity_snapshot(j).unwrap().value()
                        < self.activity_snapshot(k).unwrap().value()
            },
            self.spec_choice() is None ==> forall|j: int| !self.candidate(j),
    {
        self.lemma_choice_dominance_upto(self.input_count());
    }

    proof fn lemma_choice_dominance_upto(self, n: int)
        ensures
            self.spec_choice_upto(n) matches Some(k) ==> {
                &&& self.candidate(k)
                &&& k < n
                &&& forall|j: int|
                    j < n && self.candidate(j) ==> #[trigger] self.activity_snapshot(
                        j,
                    ).unwrap().value() <= self.activity_snapshot(k).unwrap().value()
                &&& forall|j: int|
                    0 <= j < k && self.candidate(j)
                        ==> #[trigger] self.activity_snapshot(j).unwrap().value()
                        < self.activity_snapshot(k).unwrap().value()
            },
            self.spec_choice_upto(n) is None ==> forall|j: int| j < n ==> !self.candidate(j),
        decreases n,
    {
        if n > 0 {
            self.lemma_choice_dominance_upto(n - 1);
        }
    }
}

} // verus!

verus! {

impl<D> MaximumFusion<D> {
    /// Creates a fusion node with no inputs yet: its output cell lives in
    /// `data_hub`, its standard meta-signal ports in `meta_hub`.
    pub fn with_name(
        name: &str,
        cycle_time_micros: u64,
        parent: &Parent,
        meta_hub: &mut PortHub<MetaSignal>,
        data_hub: &mut PortHub<D>,
    ) -> (r: Self)
        requires
            old(meta_hub).wf(),
            old(meta_hub)@.len() + 4 <= usize::MAX,
            old(data_hub).wf(),
            old(data_hub)@.len() < usize::MAX,
        ensures
            final(meta_hub).wf(),
            final(data_hub).wf(),
            r.wf(*final(meta_hub), *final(data_hub)),
            r.spec_name() == name@,
            r.spec_path() == parent.path@ + "/"@ + name@,
            r.spec_cycle_time() == cycle_time_micros,
            r.spec_loop_count() == 0,
            r.input_count() == 0,
            r.data_ports_aligned(),
            r.spec_output().port_id() == old(data_hub)@.len(),
            final(data_hub)@ =~= old(data_hub)@.push(PortCell::Buffer(None)),
            final(data_hub).terminus(r.spec_output().port_id()) == r.spec_output().port_id(),
            forall|k: int|
                0 <= k < old(data_hub)@.len() ==> final(data_hub).terminus(k) == old(data_hub).terminus(k),
            final(meta_hub)@.len() == old(meta_hub)@.len() + 4,
            r.spec_meta().activity.port_id() == old(meta_hub)@.len(),
            r.spec_meta().target_rating.port_id() == old(meta_hub)@.len() + 1,
            r.spec_meta().stimulation.port_id() == old(meta_hub)@.len() + 2,
            r.spec_meta().inhibition.port_id() == old(meta_hub)@.len() + 3,
            forall|k: int|
                0 <= k < old(meta_hub)@.len() ==> final(meta_hub)@[k] == old(meta_hub)@[k],
            forall|k: int|
                old(meta_hub)@.len() <= k < final(meta_hub)@.len() ==> final(meta_hub)@[k]
                    == PortCell::<MetaSignal>::Buffer(None),
            forall|k: int|
                0 <= k < old(meta_hub)@.len() ==> final(meta_hub).terminus(k) == old(meta_hub).terminus(k),
            forall|k: int|
                old(meta_hub)@.len() <= k < final(meta_hub)@.len() ==> final(meta_hub).terminus(k)
                    == k,
            forall|a: int, k: int|
                0 <= a < final(meta_hub)@.len() && old(meta_hub)@.len() <= k < final(meta_hub)@.len() && a != k ==> !final(meta_hub).reaches(a, k),
    {
        let meta = MetaPorts::new(meta_hub);
        let output = SendPort::new(data_hub);
        let parent_path = parent.child(name);
        MaximumFusion {
            output,
            meta,
            activitys: Vec::new(),
            target_ratings: Vec::new(),
            data_ports: Vec::new(),
            name: name.to_owned(),
            path: parent_path.path,
            cycle_time_micros,
            loop_count: 0,
        }
    }

    /// Connects one producer: appends a receive port linked to the
    /// producer's activity, one linked to its target rating, and one linked
    /// to `in_data_port`. The three sequences stay index-aligned, so the new
    /// index refers to this producer in all three.
    pub fn connect_module(
        &mut self,
        meta_hub: &mut PortHub<MetaSignal>,
        data_hub: &mut PortHub<D>,
        module: &MetaPorts,
        in_data_port: &SendPort<D>,
    )
        requires
            old(meta_hub).wf(),
            old(data_hub).wf(),
            old(self).wf(*old(meta_hub), *old(data_hub)),
            module.wf(*old(meta_hub)),
            0 <= in_data_port.port_id() < old(data_hub)@.len(),
            old(meta_hub)@.len() + 2 <= usize::MAX,
            old(data_hub)@.len() + 1 <= usize::MAX,
            old(self).input_count() < usize::MAX,
        ensures
            final(meta_hub).wf(),
            final(data_hub).wf(),
            final(self).wf(*final(meta_hub), *final(data_hub)),
            final(self).spec_name() == old(self).spec_name(),
            final(self).spec_path() == old(self).spec_path(),
            final(self).spec_cycle_time() == old(self).spec_cycle_time(),
            final(self).spec_loop_count() == old(self).spec_loop_count(),
            final(self).spec_meta() == old(self).spec_meta(),
            final(self).spec_output() == old(self).spec_output(),
            final(self).input_count() == old(self).input_count() + 1,
            final(self).data_ports_aligned(),
            final(meta_hub)@.len() == old(meta_hub)@.len() + 2,
            final(data_hub)@.len() == old(data_hub)@.len() + 1,
            // The appended ports read fresh cells of their hubs.
            final(self).activity_id(old(self).input_count()) == old(meta_hub)@.len(),
            final(self).target_id(old(self).input_count()) == old(meta_hub)@.len() + 1,
            final(self).data_id(old(self).input_count()) == old(data_hub)@.len(),
            // The earlier inputs are untouched.
            forall|i: int|
                0 <= i < old(self).input_count() ==> {
                    &&& final(self).activity_id(i) == old(self).activity_id(i)
                    &&& final(self).target_id(i) == old(self).target_id(i)
                    &&& final(self).data_id(i) == old(self).data_id(i)
                    &&& final(self).activity_snapshot(i) == old(self).activity_snapshot(i)
                    &&& final(self).target_snapshot(i) == old(self).target_snapshot(i)
                    &&& final(self).data_snapshot(i) == old(self).data_snapshot(i)
                },
            // No existing chain moves.
            forall|k: int|
                0 <= k < old(meta_hub)@.len() ==> final(meta_hub).terminus(k) == old(meta_hub).terminus(k),
            forall|k: int|
                0 <= k < old(data_hub)@.len() ==> final(data_hub).terminus(k) == old(data_hub).terminus(k),
            // The new input reads the producer's chains.
            final(self).activity_snapshot(old(self).input_count()) is None,
            final(self).target_snapshot(old(self).input_count()) is None,
            final(self).data_snapshot(old(self).input_count()) is None,
            final(meta_hub).terminus(final(self).activity_id(old(self).input_count())) == old(meta_hub).terminus(module.activity.port_id()),
            final(meta_hub).terminus(final(self).target_id(old(self).input_count())) == old(meta_hub).terminus(module.target_rating.port_id()),
            final(data_hub).terminus(final(self).data_id(old(self).input_count())) == old(data_hub).terminus(in_data_port.port_id()),
    {
        let activity_port: ReceivePort<MetaSignal> = ReceivePort::new(meta_hub);
        activity_port.connect_to_source(meta_hub, &module.get_activity_port());
        self.activitys.push(activity_port);

        let data_port: ReceivePort<D> = ReceivePort::new(data_hub);
        data_port.connect_to_source(data_hub, &in_data_port.port());
        self.data_ports.push(data_port);

        let target_rating_port: ReceivePort<MetaSignal> = ReceivePort::new(meta_hub);
        target_rating_port.connect_to_source(meta_hub, &module.get_target_rating_port());
        self.target_ratings.push(target_rating_port);
        proof {
            let n = old(self).input_count();
            assert(self.activitys@ =~= old(self).activitys@.push(activity_port));
            assert(self.data_ports@ =~= old(self).data_ports@.push(data_port));
            assert(self.target_ratings@ =~= old(self).target_ratings@.push(target_rating_port));
            assert forall|i: int| 0 <= i < n implies {
                &&& self.activity_id(i) == old(self).activity_id(i)
                &&& self.target_id(i) == old(self).target_id(i)
                &&& self.data_id(i) == old(self).data_id(i)
            } by {
                assert(self.activitys@[i] == old(self).activitys@[i]);
                assert(self.target_ratings@[i] == old(self).target_ratings@[i]);
                assert(self.data_ports@[i] == old(self).data_ports@[i]);
            }
        }
    }
}

} // verus!

verus! {

impl<D> MaximumFusion<D> {
    /// Walks the inputs and returns the index whose data the fusion forwards
    /// this cycle: the first input whose activity strictly exceeds the
    /// running maximum, skipping inputs without data.
    fn max_fusion(&self) -> (r: Option<usize>)
        requires
            self.data_ports@.len() == self.activitys@.len(),
        ensures
            match r {
                Option::Some(k) => self.spec_choice() == Some(k as int),
                Option::None => self.spec_choice() is None,
            },
    {
        let mut best: Option<usize> = None;
        let mut best_val = MetaSignal::low();
        let mut i: usize = 0;
        while i < self.activitys.len()
            invariant
                self.data_ports@.len() == self.activitys@.len(),
                i <= self.activitys@.len(),
                match best {
                    Option::None => self.spec_choice_upto(i as int) is None && best_val.value()
                        == 0,
                    Option::Some(k) => k < i && self.spec_choice_upto(i as int) == Some(k as int)
                        && self.activity_snapshot(k as int) == Some(best_val),
                },
            decreases self.activitys@.len() - i,
        {
            let act: Option<MetaSignal> = match self.activitys[i].get() {
                Some(a) => Some(*a),
                None => None,
            };
            let has_data = match self.data_ports[i].get() {
                Some(_) => true,
                None => false,
            };
            proof {
                let ii = i as int;
                assert(act == self.activity_snapshot(ii));
                assert(has_data == (self.data_snapshot(ii) is Some));
                assert(self.spec_choice_upto(ii + 1) == (if self.candidate(ii) && (
                match self.spec_choice_upto(ii) {
                    Option::None => true,
                    Option::Some(k) => self.activity_snapshot(ii).unwrap().value()
                        > self.activity_snapshot(k).unwrap().value(),
                }) {
                    Some(ii)
                } else {
                    self.spec_choice_upto(ii)
                }));
            }
            let take = match act {
                Some(a) => has_data && best_val.lt(a),
                None => false,
            };
            proof {
                let ii = i as int;
                if !take {
                    assert(!(self.candidate(ii) && (match self.spec_choice_upto(ii) {
                        Option::None => true,
                        Option::Some(k) => self.activity_snapshot(ii).unwrap().value()
                            > self.activity_snapshot(k).unwrap().value(),
                    })));
                    assert(self.spec_choice_upto(ii + 1) == self.spec_choice_upto(ii));
                }
            }
            proof {
                MetaSignal::lemma_value_nonneg(best_val);
            }
            if take {
                best = Some(i);
                best_val = match act {
                    Some(a) => a,
                    None => {
                        proof {
                            assert(false);
                        }
                        MetaSignal::low()
                    },
                };
                proof {
                    assert(self.spec_choice_upto(i as int + 1) == Some(i as int));
                }
            }
            i = i + 1;
        }
        best
    }

    /// Runs one fusion cycle: refresh the three input sequences, pick the
    /// input with the largest activity (ties keep the earlier-connected one,
    /// inputs without data are skipped), and, when one was found, publish its
    /// data on the output and its activity and target rating on the node's
    /// own meta-signal ports. When no input qualifies nothing is published,
    /// and the snapshot reports the node's previous activity, defaulting to
    /// LOW, and its previous target rating, defaulting to HIGH. The caller
    /// stamps `active_time_micros` and hands the snapshot to the telemetry
    /// slot.
    pub fn cycle(
        &mut self,
        meta_hub: &mut PortHub<MetaSignal>,
        data_hub: &mut PortHub<D>,
        now_micros: u64,
    ) -> (snap: SharedData) where D: Clone + crate::traits::PortSerialization
        requires
            old(meta_hub).wf(),
            old(data_hub).wf(),
            old(self).wf(*old(meta_hub), *old(data_hub)),
            old(self).spec_loop_count() < u64::MAX,
        ensures
            final(meta_hub).wf(),
            final(data_hub).wf(),
            final(self).wf(*final(meta_hub), *final(data_hub)),
            final(self).spec_name() == old(self).spec_name(),
            final(self).spec_path() == old(self).spec_path(),
            final(self).spec_cycle_time() == old(self).spec_cycle_time(),
            final(self).spec_loop_count() == old(self).spec_loop_count() + 1,
            final(self).spec_meta() == old(self).spec_meta(),
            final(self).spec_output() == old(self).spec_output(),
            final(self).input_count() == old(self).input_count(),
            final(self).data_ports_aligned(),
            forall|i: int|
                0 <= i < old(self).input_count() ==> {
                    &&& final(self).activity_id(i) == old(self).activity_id(i)
                    &&& final(self).target_id(i) == old(self).target_id(i)
                    &&& final(self).data_id(i) == old(self).data_id(i)
                },
            // The refreshed snapshots reflect what the producers' chains
            // held when the cycle sampled them.
            forall|i: int|
                0 <= i < old(self).input_count() ==> final(self).activity_snapshot(i) == old(meta_hub).stored(old(self).activity_id(i)),
            forall|i: int|
                0 <= i < old(self).input_count() ==> final(self).target_snapshot(i) == old(meta_hub).stored(old(self).target_id(i)),
            forall|i: int|
                0 <= i < old(self).input_count() ==> (final(self).data_snapshot(i) is Some <==> old(data_hub).stored(old(self).data_id(i)) is Some),
            forall|i: int|
                0 <= i < old(self).input_count() ==> (old(data_hub).stored(old(self).data_id(i))
                    matches Some(v) ==> cloned(v, #[trigger] final(self).data_snapshot(i).unwrap())),
            // The snapshot reports this cycle.
            snap.index == old(self).spec_loop_count() + 1,
            snap.source@ == old(self).spec_path(),
            snap.active_time_micros == 0,
            snap.stimulation.value() == 0,
            snap.inhibition.value() == 0,
            // A dominant input was found: its data goes out on the output
            // port, its activity and target rating on the node's own ports.
            final(self).spec_choice() matches Some(k) ==> {
                &&& snap.activity == final(self).activity_snapshot(k).unwrap()
                &&& (final(self).target_snapshot(k) matches Some(t) ==> snap.target_rating == t)
                &&& (final(self).target_snapshot(k) is None ==> snap.target_rating.value() == 0)
                &&& final(meta_hub)@ =~= old(meta_hub)@.update(
                    old(meta_hub).terminus(old(self).spec_meta().activity.port_id()),
                    PortCell::Buffer(Some(snap.activity)),
                ).update(
                    old(meta_hub).terminus(old(self).spec_meta().target_rating.port_id()),
                    PortCell::Buffer(Some(snap.target_rating)),
                )
                &&& exists|w: D|
                    #![auto]
                    cloned(final(self).data_snapshot(k).unwrap(), w) && final(data_hub)@
                        =~= old(data_hub)@.update(
                        old(data_hub).terminus(old(self).spec_output().port_id()),
                        PortCell::Buffer(Some(w)),
                    )
            },
            // No input qualifies: nothing is published, and the snapshot
            // reports the node's previous signals with the neutral defaults.
            final(self).spec_choice() is None ==> {
                &&& final(meta_hub)@ == old(meta_hub)@
                &&& final(data_hub)@ == old(data_hub)@
                &&& (old(meta_hub).stored(old(self).spec_meta().activity.port_id()) matches Some(a)
                    ==> snap.activity == a)
                &&& (old(meta_hub).stored(old(self).spec_meta().activity.port_id()) is None
                    ==> snap.activity.value() == 0)
                &&& (old(meta_hub).stored(old(self).spec_meta().target_rating.port_id())
                    matches Some(t) ==> snap.target_rating == t)
                &&& (old(meta_hub).stored(old(self).spec_meta().target_rating.port_id()) is None
                    ==> snap.target_rating.value() == crate::meta_signals::META_SCALE as int)
            },
            forall|k: int|
                0 <= k < old(meta_hub)@.len() ==> final(meta_hub).terminus(k) == old(meta_hub).terminus(k),
            forall|k: int|
                0 <= k < old(data_hub)@.len() ==> final(data_hub).terminus(k) == old(data_hub).terminus(k),
    {
        let ghost self0 = *old(self);
        let mut i: usize = 0;
        let n = self.activitys.len();
        while i < n
            invariant
                old(meta_hub).wf(),
                old(data_hub).wf(),
                *meta_hub == *old(meta_hub),
                *data_hub == *old(data_hub),
                self0.wf(*old(meta_hub), *old(data_hub)),
                n == self0.input_count(),
                i <= n,
                self.activitys@.len() == n,
                self.target_ratings == self0.target_ratings,
                self.data_ports == self0.data_ports,
                self.output == self0.output,
                self.meta == self0.meta,
                self.name == self0.name,
                self.path == self0.path,
                self.cycle_time_micros == self0.cycle_time_micros,
                self.loop_count == self0.loop_count,
                forall|j: int| 0 <= j < n ==> self.activity_id(j) == self0.activity_id(j),
                forall|j: int|
                    0 <= j < i ==> self.activity_snapshot(j) == old(meta_hub).stored(
                        self0.activity_id(j),
                    ),
                forall|j: int|
                    i <= j < n ==> self.activitys@[j] == self0.activitys@[j],
            decreases n - i,
        {
            let ghost pre_self = *self;
            let ghost pre = self.activitys@;
            proof {
                assert(0 <= self0.activity_id(i as int) < old(meta_hub)@.len());
            }
            self.activitys[i].update_copied(meta_hub);
            proof {
                assert(self.activitys@ =~= pre.update(i as int, self.activitys@[i as int]));
                assert(self.activity_snapshot(i as int) == old(meta_hub).stored(
                    self0.activity_id(i as int),
                ));
                assert forall|j: int| 0 <= j < i implies self.activity_snapshot(j) == old(meta_hub).stored(self0.activity_id(j)) by {
                    assert(pre_self.activity_snapshot(j) == old(meta_hub).stored(
                        self0.activity_id(j),
                    ));
                    assert(self.activitys@[j] == pre[j]);
                }
                assert forall|j: int| 0 <= j < n implies self.activity_id(j)
                    == self0.activity_id(j) by {
                    if j != i as int {
                        assert(self.activitys@[j] == pre[j]);
                    }
                }
            }
            i = i + 1;
        }
        let mut i: usize = 0;
        while i < n
            invariant
                old(meta_hub).wf(),
                old(data_hub).wf(),
                *meta_hub == *old(meta_hub),
                *data_hub == *old(data_hub),
                self0.wf(*old(meta_hub), *old(data_hub)),
                n == self0.input_count(),
                i <= n,
                self.activitys@.len() == n,
                self.target_ratings@.len() == n,
                self.data_ports == self0.data_ports,
                self.output == self0.output,
                self.meta == self0.meta,
                self.name == self0.name,
                self.path == self0.path,
                self.cycle_time_micros == self0.cycle_time_micros,
                self.loop_count == self0.loop_count,
                forall|j: int| 0 <= j < n ==> self.activity_id(j) == self0.activity_id(j),
                forall|j: int|
                    0 <= j < n ==> self.activity_snapshot(j) == old(meta_hub).stored(
                        self0.activity_id(j),
                    ),
                forall|j: int| 0 <= j < n ==> self.target_id(j) == self0.target_id(j),
                forall|j: int|
                    0 <= j < i ==> self.target_snapshot(j) == old(meta_hub).stored(
                        self0.target_id(j),
                    ),
                forall|j: int|
                    i <= j < n ==> self.target_ratings@[j] == self0.target_ratings@[j],
            decreases n - i,
        {
            let ghost pre_self = *self;
            let ghost pre = self.target_ratings@;
            proof {
                assert(0 <= self0.target_id(i as int) < old(meta_hub)@.len());
            }
            self.target_ratings[i].update_copied(meta_hub);
            proof {
                assert(self.target_ratings@ =~= pre.update(i as int, self.target_ratings@[i as int]));
                assert(self.target_snapshot(i as int) == old(meta_hub).stored(
                    self0.target_id(i as int),
                ));
                assert forall|j: int| 0 <= j < i implies self.target_snapshot(j) == old(meta_hub).stored(self0.target_id(j)) by {
                    assert(pre_self.target_snapshot(j) == old(meta_hub).stored(
                        self0.target_id(j),
                    ));
                    assert(self.target_ratings@[j] == pre[j]);
                }
                assert forall|j: int| 0 <= j < n implies self.activity_snapshot(j) == old(meta_hub).stored(self0.activity_id(j)) by {
                    assert(pre_self.activity_snapshot(j) == old(meta_hub).stored(
                        self0.activity_id(j),
                    ));
                }
                assert forall|j: int| 0 <= j < n implies self.target_id(j) == self0.target_id(
                    j,
                ) by {
                    if j != i as int {
                        assert(self.target_ratings@[j] == pre[j]);
                    }
                }
            }
            i = i + 1;
        }
        let mut i: usize = 0;
        while i < n
            invariant
                old(meta_hub).wf(),
                old(data_hub).wf(),
                *meta_hub == *old(meta_hub),
                *data_hub == *old(data_hub),
                self0.wf(*old(meta_hub), *old(data_hub)),
                n == self0.input_count(),
                i <= n,
                self.activitys@.len() == n,
                self.target_ratings@.len() == n,
                self.data_ports@.len() == n,
                self.output == self0.output,
                self.meta == self0.meta,
                self.name == self0.name,
                self.path == self0.path,
                self.cycle_time_micros == self0.cycle_time_micros,
                self.loop_count == self0.loop_count,
                forall|j: int| 0 <= j < n ==> self.activity_id(j) == self0.activity_id(j),
                forall|j: int|
                    0 <= j < n ==> self.activity_snapshot(j) == old(meta_hub).stored(
                        self0.activity_id(j),
                    ),
                forall|j: int| 0 <= j < n ==> self.target_id(j) == self0.target_id(j),
                forall|j: int|
                    0 <= j < n ==> self.target_snapshot(j) == old(meta_hub).stored(
                        self0.target_id(j),
                    ),
                forall|j: int| 0 <= j < n ==> self.data_id(j) == self0.data_id(j),
                forall|j: int|
                    0 <= j < i ==> (self.data_snapshot(j) is Some <==> old(data_hub).stored(
                        self0.data_id(j),
                    ) is Some),
                forall|j: int|
                    0 <= j < i ==> (old(data_hub).stored(self0.data_id(j)) matches Some(v)
                        ==> cloned(v, #[trigger] self.data_snapshot(j).unwrap())),
                forall|j: int|
                    i <= j < n ==> self.data_ports@[j] == self0.data_ports@[j],
            decreases n - i,
        {
            let ghost pre_self = *self;
            let ghost pre = self.data_ports@;
            proof {
                assert(0 <= self0.data_id(i as int) < old(data_hub)@.len());
            }
            self.data_ports[i].update(data_hub);
            proof {
                assert(self.data_ports@ =~= pre.update(i as int, self.data_ports@[i as int]));
                assert(self.data_snapshot(i as int) is Some <==> old(data_hub).stored(
                    self0.data_id(i as int),
                ) is Some);
                assert forall|j: int| 0 <= j < i implies (self.data_snapshot(j) is Some <==> old(data_hub).stored(self0.data_id(j)) is Some) by {
                    assert(pre_self.data_snapshot(j) is Some <==> old(data_hub).stored(
                        self0.data_id(j),
                    ) is Some);
                    assert(self.data_ports@[j] == pre[j]);
                }
                assert forall|j: int|
                    0 <= j < i implies (old(data_hub).stored(self0.data_id(j)) matches Some(v)
                    ==> cloned(v, #[trigger] self.data_snapshot(j).unwrap())) by {
                    if old(data_hub).stored(self0.data_id(j)) is Some {
                        assert(cloned(
                            old(data_hub).stored(self0.data_id(j)).unwrap(),
                            pre_self.data_snapshot(j).unwrap(),
                        ));
                        assert(self.data_ports@[j] == pre[j]);
                    }
                }
                assert forall|j: int| 0 <= j < n implies self.activity_snapshot(j) == old(meta_hub).stored(self0.activity_id(j)) by {
                    assert(pre_self.activity_snapshot(j) == old(meta_hub).stored(
                        self0.activity_id(j),
                    ));
                }
                assert forall|j: int| 0 <= j < n implies self.target_snapshot(j) == old(meta_hub).stored(self0.target_id(j)) by {
                    assert(pre_self.target_snapshot(j) == old(meta_hub).stored(
                        self0.target_id(j),
                    ));
                }
                assert forall|j: int| 0 <= j < n implies self.data_id(j) == self0.data_id(j) by {
                    if j != i as int {
                        assert(self.data_ports@[j] == pre[j]);
                    }
                }
            }
            i = i + 1;
        }
        let ghost mid = *self;
        self.loop_count = self.loop_count + 1;
        proof {
            assert forall|i: int|
                0 <= i < self0.input_count() implies {
                    &&& self.activity_snapshot(i) == old(meta_hub).stored(self0.activity_id(i))
                    &&& self.target_snapshot(i) == old(meta_hub).stored(self0.target_id(i))
                    &&& (self.data_snapshot(i) is Some <==> old(data_hub).stored(
                        self0.data_id(i),
                    ) is Some)
                    &&& (old(data_hub).stored(self0.data_id(i)) matches Some(v) ==> cloned(
                        v,
                        self.data_snapshot(i).unwrap(),
                    ))
                    &&& self.activity_id(i) == self0.activity_id(i)
                    &&& self.target_id(i) == self0.target_id(i)
                    &&& self.data_id(i) == self0.data_id(i)
                } by {
                assert(mid.activity_snapshot(i) == old(meta_hub).stored(self0.activity_id(i)));
                assert(mid.target_snapshot(i) == old(meta_hub).stored(self0.target_id(i)));
                assert(mid.data_snapshot(i) is Some <==> old(data_hub).stored(
                    self0.data_id(i),
                ) is Some);
                if old(data_hub).stored(self0.data_id(i)) is Some {
                    assert(cloned(
                        old(data_hub).stored(self0.data_id(i)).unwrap(),
                        mid.data_snapshot(i).unwrap(),
                    ));
                }
                assert(mid.activity_id(i) == self0.activity_id(i));
                assert(mid.target_id(i) == self0.target_id(i));
                assert(mid.data_id(i) == self0.data_id(i));
            }
        }
        let choice = self.max_fusion();
        let mut snap_activity: MetaSignal;
        let mut snap_target: MetaSignal;
        match choice {
            Some(k) => {
                proof {
                    self.lemma_choice_dominance();
                }
                let a: MetaSignal = match self.activitys[k].get() {
                    Some(a) => *a,
                    None => {
                        proof {
                            assert(false);
                        }
                        MetaSignal::low()
                    },
                };
                let t: MetaSignal = match self.target_ratings[k].get() {
                    Some(t) => *t,
                    None => MetaSignal::low(),
                };
                let d: D = match self.data_ports[k].get() {
                    Some(v) => v.clone(),
                    None => {
                        proof {
                            assert(false);
                        }
                        vstd::pervasive::unreached()
                    },
                };
                let ghost d_sent = d;
                self.meta.set_activity(meta_hub, a);
                self.meta.set_target_rating(meta_hub, t);
                self.output.send(data_hub, d);
                proof {
                    assert(cloned(self.data_snapshot(k as int).unwrap(), d_sent));
                    assert(data_hub@ =~= old(data_hub)@.update(
                        old(data_hub).terminus(self0.spec_output().port_id()),
                        PortCell::Buffer(Some(d_sent)),
                    ));
                    assert(meta_hub@ =~= old(meta_hub)@.update(
                        old(meta_hub).terminus(self0.spec_meta().activity.port_id()),
                        PortCell::Buffer(Some(a)),
                    ).update(
                        old(meta_hub).terminus(self0.spec_meta().target_rating.port_id()),
                        PortCell::Buffer(Some(t)),
                    ));
                }
                snap_activity = a;
                snap_target = t;
            },
            None => {
                snap_activity = match self.meta.get_activity(meta_hub) {
                    Some(a) => a,
                    None => MetaSignal::low(),
                };
                snap_target = match self.meta.get_target_rating(meta_hub) {
                    Some(t) => t,
                    None => MetaSignal::high(),
                };
            },
        }
        proof {
            assert(final(meta_hub)@.len() == old(meta_hub)@.len());
            assert(final(data_hub)@.len() == old(data_hub)@.len());
            assert forall|i: int|
                0 <= i < final(self).input_count() implies 0 <= #[trigger] final(self).activity_id(i) < final(meta_hub)@.len() by {
                assert(final(self).activity_id(i) == self0.activity_id(i));
                assert(0 <= self0.activity_id(i) < old(meta_hub)@.len());
            }
            assert forall|i: int|
                0 <= i < final(self).input_count() implies 0 <= #[trigger] final(self).target_id(i) < final(meta_hub)@.len() by {
                assert(final(self).target_id(i) == self0.target_id(i));
                assert(0 <= self0.target_id(i) < old(meta_hub)@.len());
            }
            assert forall|i: int|
                0 <= i < final(self).input_count() implies 0 <= #[trigger] final(self).data_id(i) < final(data_hub)@.len() by {
                assert(final(self).data_id(i) == self0.data_id(i));
                assert(0 <= self0.data_id(i) < old(data_hub)@.len());
            }
        }
        SharedData {
            index: self.loop_count,
            activity: snap_activity,
            target_rating: snap_target,
            stimulation: MetaSignal::low(),
            inhibition: MetaSignal::low(),
            active_time_micros: 0,
            source: self.path.clone(),
            data: Vec::new(),
        }
    }
}

} // verus!

verus! {

impl<D: PortSerialization> MaximumFusion<D> {
    /// Whether `entries` is the telemetry listing of the first `n` inputs:
    /// for each input whose activity and data snapshots are both present, in
    /// order, a data entry and an activity entry named after the input's
    /// index; inputs with either snapshot missing contribute nothing.
    pub open spec fn entries_ok(self, n: int, entries: Seq<(Seq<char>, PortData)>) -> bool
        decreases n,
    {
        if n <= 0 {
            entries.len() == 0
        } else if self.activity_snapshot(n - 1) is Some && self.data_snapshot(n - 1) is Some {
            &&& entries.len() >= 2
            &&& self.entries_ok(n - 1, entries.take(entries.len() - 2))
            &&& entries[entries.len() - 2].0 == "data_port_"@ + crate::text::spec_decimal(
                (n - 1) as nat,
            )
            &&& self.data_snapshot(n - 1).unwrap().spec_is_port_data(
                entries[entries.len() - 2].1,
            )
            &&& entries[entries.len() - 1].0 == "activity_"@ + crate::text::spec_decimal(
                (n - 1) as nat,
            )
            &&& entries[entries.len() - 1].1 == PortData::MetaSignal(
                self.activity_snapshot(n - 1).unwrap(),
            )
        } else {
            self.entries_ok(n - 1, entries)
        }
    }

    /// Builds the telemetry listing of this node's ports: one data and one
    /// activity entry per input whose snapshots are both present, and, when
    /// the output chain holds a value, a final entry for the output.
    pub fn serialize_port_data(&self, data_hub: &PortHub<D>) -> (r: Vec<(String, PortData)>)
        requires
            data_hub.wf(),
            self.data_ports_aligned(),
            0 <= self.spec_output().port_id() < data_hub@.len(),
        ensures
            ({
                let m = r@.map_values(|p: (String, PortData)| (p.0@, p.1));
                match data_hub.stored(self.spec_output().port_id()) {
                    Option::Some(v) => m.len() >= 1 && self.entries_ok(
                        self.input_count(),
                        m.drop_last(),
                    ) && m.last().0 == "output"@ && v.spec_is_port_data(m.last().1),
                    Option::None => self.entries_ok(self.input_count(), m),
                }
            }),
    {
        let mut port_data: Vec<(String, PortData)> = Vec::new();
        let mut index: usize = 0;
        let n = self.activitys.len();
        while index < n
            invariant
                n == self.input_count(),
                self.data_ports@.len() == n,
                index <= n,
                self.entries_ok(
                    index as int,
                    port_data@.map_values(|p: (String, PortData)| (p.0@, p.1)),
                ),
            decreases n - index,
        {
            let ghost m0 = port_data@.map_values(|p: (String, PortData)| (p.0@, p.1));
            let has_activity = match self.activitys[index].get() {
                Some(_) => true,
                None => false,
            };
            match self.data_ports[index].get() {
                Some(data) => {
                    if has_activity {
                        let activity = match self.activitys[index].get() {
                            Some(a) => *a,
                            None => {
                                proof {
                                    assert(false);
                                }
                                MetaSignal::low()
                            },
                        };
                        let mut data_name = "data_port_".to_owned();
                        let digits = crate::text::decimal_string(index as u64);
                        data_name.append(digits.as_str());
                        let serialized = data.serialize_port_data();
                        port_data.push((data_name, serialized));
                        let mut activity_name = "activity_".to_owned();
                        let digits2 = crate::text::decimal_string(index as u64);
                        activity_name.append(digits2.as_str());
                        port_data.push((activity_name, PortData::MetaSignal(activity)));
                        proof {
                            let m2 = port_data@.map_values(
                                |p: (String, PortData)| (p.0@, p.1),
                            );
                            assert(m2.len() == m0.len() + 2);
                            assert(m2.take(m2.len() - 2) =~= m0);
                            assert(m2[m2.len() - 2] == (
                                "data_port_"@ + crate::text::spec_decimal(index as nat),
                                m2[m2.len() - 2].1,
                            ));
                            assert(self.entries_ok(index + 1, m2));
                        }
                    }
                },
                None => {},
            }
            index = index + 1;
        }
        match self.output.get(data_hub) {
            Some(output) => {
                let ghost m0 = port_data@.map_values(|p: (String, PortData)| (p.0@, p.1));
                let serialized = output.serialize_port_data();
                port_data.push(("output".to_owned(), serialized));
                proof {
                    let m2 = port_data@.map_values(|p: (String, PortData)| (p.0@, p.1));
                    assert(m2.drop_last() =~= m0);
                }
            },
            None => {},
        }
        port_data
    }
}

} // verus!
